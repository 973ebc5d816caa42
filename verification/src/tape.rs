//! The memory tape: an unbounded row of 8-bit cells with wraparound
//! arithmetic, addressed by a head that may move arbitrarily far in either
//! direction. Storage grows on demand at whichever edge the head crosses.

use vstd::prelude::*;

verus! {

/// Mathematical model of a tape: the cell contents and the head position.
#[verifier::ext_equal]
pub struct TapeModel {
    pub head: int,
    pub cells: Seq<u8>,
}

impl TapeModel {
    /// The tape always holds at least one cell and the head is on a cell.
    pub open spec fn wf(self) -> bool {
        &&& self.cells.len() >= 1
        &&& 0 <= self.head < self.cells.len()
    }

    /// The cell currently under the head.
    pub open spec fn current(self) -> u8 {
        self.cells[self.head]
    }
}

/// Wraparound addition of `delta` to the cell under the head.
pub open spec fn add_spec(t: TapeModel, delta: u8) -> TapeModel {
    TapeModel { head: t.head, cells: t.cells.update(t.head, (((t.current() + delta) % 256) as u8)) }
}

/// Wraparound subtraction of `delta` from the cell under the head.
pub open spec fn subtract_spec(t: TapeModel, delta: u8) -> TapeModel {
    TapeModel { head: t.head, cells: t.cells.update(t.head, (((t.current() - delta) % 256) as u8)) }
}

/// Moving the head `delta` cells to the right, appending zero cells so the
/// new head position is on a cell.
pub open spec fn shift_right_spec(t: TapeModel, delta: int) -> TapeModel {
    let needed = t.head + delta + 1;
    let cells = if t.cells.len() >= needed {
        t.cells
    } else {
        t.cells + Seq::new((needed - t.cells.len()) as nat, |i: int| 0u8)
    };
    TapeModel { head: t.head + delta, cells }
}

/// Moving the head `delta` cells to the left, prepending zero cells when the
/// move would pass the left edge; prepending shifts every old cell right.
pub open spec fn shift_left_spec(t: TapeModel, delta: int) -> TapeModel {
    let pad = if t.head < delta { delta - t.head } else { 0 };
    TapeModel { head: t.head + pad - delta, cells: Seq::new(pad as nat, |i: int| 0u8) + t.cells }
}

/// Overwriting the cell under the head with `val`.
pub open spec fn write_spec(t: TapeModel, val: u8) -> TapeModel {
    TapeModel { head: t.head, cells: t.cells.update(t.head, val) }
}

/// The signed total of a sequence of cell operations, where `(true, d)`
/// stands for adding `d` to the current cell and `(false, d)` for
/// subtracting `d` from it.
pub open spec fn cell_ops_net(ops: Seq<(bool, u8)>) -> int
    decreases ops.len(),
{
    if ops.len() == 0 {
        0
    } else {
        cell_ops_net(ops.drop_last()) + if ops.last().0 {
            ops.last().1 as int
        } else {
            -(ops.last().1 as int)
        }
    }
}

/// The tape after a sequence of add/subtract operations, applied in order.
pub open spec fn apply_cell_ops(t: TapeModel, ops: Seq<(bool, u8)>) -> TapeModel
    decreases ops.len(),
{
    if ops.len() == 0 {
        t
    } else {
        let prev = apply_cell_ops(t, ops.drop_last());
        if ops.last().0 {
            add_spec(prev, ops.last().1)
        } else {
            subtract_spec(prev, ops.last().1)
        }
    }
}

/// Wraparound law: any sequence of additions and subtractions on the cell
/// under the head leaves that cell at `(initial + total_delta) mod 256`, the
/// head where it was, and every other cell untouched.
pub proof fn lemma_cell_wraparound(t: TapeModel, ops: Seq<(bool, u8)>)
    requires
        t.wf(),
    ensures
        apply_cell_ops(t, ops).wf(),
        apply_cell_ops(t, ops).head == t.head,
        apply_cell_ops(t, ops).cells == t.cells.update(
            t.head,
            (((t.current() + cell_ops_net(ops)) % 256) as u8),
        ),
    decreases ops.len(),
{
    if ops.len() == 0 {
        vstd::arithmetic::div_mod::lemma_small_mod(t.current() as nat, 256);
        assert(apply_cell_ops(t, ops).cells =~= t.cells.update(
            t.head,
            (((t.current() + cell_ops_net(ops)) % 256) as u8),
        ));
    } else {
        lemma_cell_wraparound(t, ops.drop_last());
        let prev = apply_cell_ops(t, ops.drop_last());
        let x = t.current() + cell_ops_net(ops.drop_last());
        let d = ops.last().1 as int;
        vstd::arithmetic::div_mod::lemma_small_mod(ops.last().1 as nat, 256);
        if ops.last().0 {
            vstd::arithmetic::div_mod::lemma_add_mod_noop(x, d, 256);
        } else {
            vstd::arithmetic::div_mod::lemma_sub_mod_noop(x, d, 256);
        }
        assert(apply_cell_ops(t, ops).cells =~= t.cells.update(
            t.head,
            (((t.current() + cell_ops_net(ops)) % 256) as u8),
        ));
    }
}

/// The tape after a sequence of unit head moves, applied in order, where
/// `true` is one move right and `false` one move left.
pub open spec fn apply_unit_moves(t: TapeModel, moves: Seq<bool>) -> TapeModel
    decreases moves.len(),
{
    if moves.len() == 0 {
        t
    } else {
        let prev = apply_unit_moves(t, moves.drop_last());
        if moves.last() {
            shift_right_spec(prev, 1)
        } else {
            shift_left_spec(prev, 1)
        }
    }
}

/// `n` unit moves right take the head `n` cells right; the old cells keep
/// their values and any cells appended on the way are zero.
pub proof fn lemma_unit_rights(t: TapeModel, n: int)
    requires
        t.wf(),
        n >= 0,
    ensures
        ({
            let u = apply_unit_moves(t, Seq::new(n as nat, |i: int| true));
            &&& u.wf()
            &&& u.head == t.head + n
            &&& t.cells.len() <= u.cells.len()
            &&& forall|i: int| 0 <= i < t.cells.len() ==> u.cells[i] == t.cells[i]
            &&& forall|i: int| t.cells.len() <= i < u.cells.len() ==> u.cells[i] == 0
        }),
    decreases n,
{
    if n == 0 {
        assert(Seq::new(0nat, |i: int| true) =~= Seq::<bool>::empty());
    } else {
        lemma_unit_rights(t, n - 1);
        let moves = Seq::new(n as nat, |i: int| true);
        assert(moves.drop_last() =~= Seq::new((n - 1) as nat, |i: int| true));
        assert(moves.last());
    }
}

/// While the head is at least `n` cells from the left edge, `n` unit moves
/// left take it `n` cells left and leave every cell as it was.
pub proof fn lemma_unit_lefts(t: TapeModel, n: int)
    requires
        t.wf(),
        0 <= n <= t.head,
    ensures
        ({
            let u = apply_unit_moves(t, Seq::new(n as nat, |i: int| false));
            &&& u.wf()
            &&& u.head == t.head - n
            &&& u.cells == t.cells
        }),
    decreases n,
{
    if n == 0 {
        assert(Seq::new(0nat, |i: int| false) =~= Seq::<bool>::empty());
    } else {
        lemma_unit_lefts(t, n - 1);
        let moves = Seq::new(n as nat, |i: int| false);
        assert(moves.drop_last() =~= Seq::new((n - 1) as nat, |i: int| false));
        assert(!moves.last());
        let prev = apply_unit_moves(t, moves.drop_last());
        assert(shift_left_spec(prev, 1).cells =~= prev.cells);
    }
}

/// Applying a concatenation of move sequences is applying one after the
/// other.
pub proof fn lemma_moves_concat(t: TapeModel, a: Seq<bool>, b: Seq<bool>)
    ensures
        apply_unit_moves(t, a + b) == apply_unit_moves(apply_unit_moves(t, a), b),
    decreases b.len(),
{
    if b.len() == 0 {
        assert(a + b =~= a);
    } else {
        lemma_moves_concat(t, a, b.drop_last());
        assert((a + b).drop_last() =~= a + b.drop_last());
        assert((a + b).last() == b.last());
    }
}

/// Round-trip law: any count of unit moves right followed by the same count
/// of unit moves left returns the head to its original position, and every
/// cell that existed before keeps its value — growth on the way is
/// invisible to the caller.
pub proof fn lemma_right_then_left(t: TapeModel, n: int)
    requires
        t.wf(),
        n >= 0,
    ensures
        ({
            let u = apply_unit_moves(
                t,
                Seq::new(n as nat, |i: int| true) + Seq::new(n as nat, |i: int| false),
            );
            &&& u.wf()
            &&& u.head == t.head
            &&& forall|i: int| 0 <= i < t.cells.len() ==> u.cells[i] == t.cells[i]
        }),
{
    let rights = Seq::new(n as nat, |i: int| true);
    let lefts = Seq::new(n as nat, |i: int| false);
    lemma_moves_concat(t, rights, lefts);
    lemma_unit_rights(t, n);
    lemma_unit_lefts(apply_unit_moves(t, rights), n);
}

pub struct Tape {
    head: usize,
    data: Vec<u8>,
}

impl View for Tape {
    type V = TapeModel;

    closed spec fn view(&self) -> TapeModel {
        TapeModel { head: self.head as int, cells: self.data@ }
    }
}

impl Tape {
    /// A fresh tape: a single zero cell with the head on it.
    pub fn new() -> (t: Tape)
        ensures
            t@.wf(),
            t@.head == 0,
            t@.cells == seq![0u8],
    {
        let t = Tape { head: 0, data: vec![0u8] };
        proof {
            assert(t@.cells =~= seq![0u8]);
        }
        t
    }

    /// The value of the cell under the head.
    pub fn read(&self) -> (r: u8)
        requires
            self@.wf(),
        ensures
            r == self@.current(),
    {
        self.data[self.head]
    }

    /// Overwrite the cell under the head.
    pub fn write(&mut self, val: &u8)
        requires
            old(self)@.wf(),
        ensures
            final(self)@.wf(),
            final(self)@ == write_spec(old(self)@, *val),
    {
        self.data.set(self.head, *val);
        proof {
            assert(self@ =~= write_spec(old(self)@, *val));
        }
    }

    /// Add `delta` to the cell under the head, wrapping at 256.
    pub fn add(&mut self, delta: &u8)
        requires
            old(self)@.wf(),
        ensures
            final(self)@.wf(),
            final(self)@ == add_spec(old(self)@, *delta),
    {
        let v = self.data[self.head].wrapping_add(*delta);
        self.data.set(self.head, v);
        proof {
            assert(self@ =~= add_spec(old(self)@, *delta));
        }
    }

    /// Subtract `delta` from the cell under the head, wrapping below 0.
    pub fn subtract(&mut self, delta: &u8)
        requires
            old(self)@.wf(),
        ensures
            final(self)@.wf(),
            final(self)@ == subtract_spec(old(self)@, *delta),
    {
        let v = self.data[self.head].wrapping_sub(*delta);
        self.data.set(self.head, v);
        proof {
            assert(self@ =~= subtract_spec(old(self)@, *delta));
        }
    }

    /// Move the head `delta` cells to the right, appending zero cells first
    /// so that the head lands on a cell.
    pub fn shift_right(&mut self, delta: &usize)
        requires
            old(self)@.wf(),
            old(self)@.head + *delta <= usize::MAX,
        ensures
            final(self)@.wf(),
            final(self)@ == shift_right_spec(old(self)@, *delta as int),
    {
        while self.data.len() <= self.head + *delta
            invariant
                self.head == old(self)@.head,
                self.head + *delta <= usize::MAX,
                old(self)@.cells.len() <= self.data@.len(),
                self.data@.len() <= self.head + *delta + 1 || self.data@.len() == old(
                    self,
                )@.cells.len(),
                self.data@ == old(self)@.cells + Seq::new(
                    (self.data@.len() - old(self)@.cells.len()) as nat,
                    |i: int| 0u8,
                ),
            decreases self.head + *delta + 1 - self.data@.len(),
        {
            self.data.push(0u8);
            proof {
                assert(self.data@ =~= old(self)@.cells + Seq::new(
                    (self.data@.len() - old(self)@.cells.len()) as nat,
                    |i: int| 0u8,
                ));
            }
        }
        self.head = self.head + *delta;
        proof {
            if old(self)@.cells.len() >= old(self)@.head + *delta + 1 {
                assert(self.data@ =~= old(self)@.cells);
            }
            assert(self@ =~= shift_right_spec(old(self)@, *delta as int));
        }
    }

    /// Move the head `delta` cells to the left, prepending zero cells when
    /// the move would pass the left edge of the tape.
    pub fn shift_left(&mut self, delta: &usize)
        requires
            old(self)@.wf(),
        ensures
            final(self)@.wf(),
            final(self)@ == shift_left_spec(old(self)@, *delta as int),
    {
        while self.head < *delta
            invariant
                old(self)@.head <= self.head,
                old(self)@.head < *delta ==> self.head <= *delta,
                old(self)@.head >= *delta ==> self.head == old(self)@.head,
                self.data@ == Seq::new((self.head - old(self)@.head) as nat, |i: int| 0u8)
                    + old(self)@.cells,
            decreases *delta - self.head,
        {
            self.data.insert(0, 0u8);
            self.head = self.head + 1;
            proof {
                assert(self.data@ =~= Seq::new((self.head - old(self)@.head) as nat, |i: int| 0u8)
                    + old(self)@.cells);
            }
        }
        self.head = self.head - *delta;
        proof {
            assert(self@ =~= shift_left_spec(old(self)@, *delta as int));
        }
    }

    /// The head and the cell count of a real tape fit in a machine word.
    pub proof fn lemma_view_fits(&self)
        ensures
            self@.head <= usize::MAX,
            self@.cells.len() <= usize::MAX,
    {
        vstd::std_specs::vec::axiom_spec_len(&self.data);
    }

    /// The number of cells currently materialized.
    pub fn len(&self) -> (n: usize)
        ensures
            n == self@.cells.len(),
    {
        self.data.len()
    }

    /// The head position within the materialized cells.
    pub fn head_pos(&self) -> (h: usize)
        ensures
            h == self@.head,
    {
        self.head
    }

    /// The value of the cell at index `i`.
    pub fn get(&self, i: usize) -> (r: u8)
        requires
            i < self@.cells.len(),
        ensures
            r == self@.cells[i as int],
    {
        self.data[i]
    }
}

} // verus!
