//! A textual rendering of the machine state for debug tracing: the tape's
//! cells in decimal with the head cell wrapped in angle brackets, then the
//! not-yet-executed part of the program. Rendering only reads the state; the
//! text is a pure function of it, so tracing never disturbs a run.

use vstd::prelude::*;

use crate::machine::{Machine, MachineModel, Operation};
use crate::tape::{Tape, TapeModel};

verus! {

/// The decimal digits of a cell value, as ASCII bytes.
pub open spec fn decimal_digits(n: int) -> Seq<u8> {
    if n < 10 {
        seq![(48 + n) as u8]
    } else if n < 100 {
        seq![(48 + n / 10) as u8, (48 + n % 10) as u8]
    } else {
        seq![(48 + n / 100) as u8, (48 + (n / 10) % 10) as u8, (48 + n % 10) as u8]
    }
}

/// One cell's text: its decimal value, wrapped in `<`/`>` when the head is
/// on it.
pub open spec fn cell_text(value: u8, marked: bool) -> Seq<u8> {
    if marked {
        seq![60u8] + decimal_digits(value as int) + seq![62u8]
    } else {
        decimal_digits(value as int)
    }
}

/// The text of the first `n` cells of the tape, space-separated.
pub open spec fn tape_text_upto(t: TapeModel, n: int) -> Seq<u8>
    decreases n,
{
    if n <= 0 {
        Seq::empty()
    } else if n == 1 {
        cell_text(t.cells[0], t.head == 0)
    } else {
        tape_text_upto(t, n - 1) + seq![32u8] + cell_text(t.cells[n - 1], t.head == n - 1)
    }
}

/// The whole tape's text.
pub open spec fn tape_text(t: TapeModel) -> Seq<u8> {
    tape_text_upto(t, t.cells.len() as int)
}

/// The script character of one operation, as an ASCII byte.
pub open spec fn op_symbol(op: Operation) -> u8 {
    match op {
        Operation::Add => 43,  // '+'
        Operation::Subtract => 45,  // '-'
        Operation::Read => 44,  // ','
        Operation::Write => 46,  // '.'
        Operation::Left => 60,  // '<'
        Operation::Right => 62,  // '>'
        Operation::Start => 91,  // '['
        Operation::End => 93,  // ']'
    }
}

/// The text of an operation sequence: its characters, unseparated.
pub open spec fn ops_text(ops: Seq<Operation>) -> Seq<u8> {
    ops.map_values(|op: Operation| op_symbol(op))
}

/// The machine's trace line: the tape, a separator, and what remains of the
/// program from the instruction pointer on.
pub open spec fn machine_text(m: MachineModel) -> Seq<u8> {
    tape_text(m.tape) + seq![58u8, 32u8] + ops_text(m.ops.skip(m.ip))
}

/// Append the decimal digits of `v` to `out`.
fn push_decimal(out: &mut Vec<u8>, v: u8)
    ensures
        final(out)@ == old(out)@ + decimal_digits(v as int),
{
    if v >= 100 {
        out.push(48 + v / 100);
    }
    if v >= 10 {
        out.push(48 + (v / 10) % 10);
    }
    out.push(48 + v % 10);
    proof {
        assert(out@ =~= old(out)@ + decimal_digits(v as int));
    }
}

/// The script character of one operation.
pub fn op_char(op: Operation) -> (r: u8)
    ensures
        r == op_symbol(op),
{
    match op {
        Operation::Add => 43,
        Operation::Subtract => 45,
        Operation::Read => 44,
        Operation::Write => 46,
        Operation::Left => 60,
        Operation::Right => 62,
        Operation::Start => 91,
        Operation::End => 93,
    }
}

impl Tape {
    /// The tape's text: cell values in decimal, separated by spaces, the
    /// head cell wrapped in angle brackets.
    pub fn render(&self) -> (out: Vec<u8>)
        requires
            self@.wf(),
        ensures
            out@ == tape_text(self@),
    {
        let mut out: Vec<u8> = Vec::new();
        let n = self.len();
        let mut i: usize = 0;
        while i < n
            invariant
                i <= n,
                n == self@.cells.len(),
                self@.wf(),
                out@ == tape_text_upto(self@, i as int),
            decreases n - i,
        {
            if i > 0 {
                out.push(32);
            }
            let marked = self.head_pos() == i;
            if marked {
                out.push(60);
            }
            push_decimal(&mut out, self.get(i));
            if marked {
                out.push(62);
            }
            proof {
                assert(out@ =~= tape_text_upto(self@, i + 1));
            }
            i = i + 1;
        }
        out
    }
}

impl Machine {
    /// One trace line of the machine: its tape, then the remaining program.
    /// The text is a pure function of the machine state, and taking it
    /// leaves that state untouched.
    pub fn render(&self) -> (out: Vec<u8>)
        requires
            self@.wf(),
        ensures
            out@ == machine_text(self@),
    {
        let mut out = self.tape().render();
        out.push(58);
        out.push(32);
        let ghost prefix = out@;
        let n = self.program_len();
        let mut j: usize = self.position();
        proof {
            assert(self@.ops.subrange(self@.ip, self@.ip).map_values(
                |op: Operation| op_symbol(op),
            ) =~= Seq::<u8>::empty());
            assert(out@ =~= prefix + ops_text(self@.ops.subrange(self@.ip, self@.ip)));
        }
        while j < n
            invariant
                self@.ip <= j <= n,
                n == self@.ops.len(),
                self@.wf(),
                prefix == tape_text(self@.tape) + seq![58u8, 32u8],
                out@ == prefix + ops_text(self@.ops.subrange(self@.ip, j as int)),
            decreases n - j,
        {
            let c = op_char(self.op_at(j));
            out.push(c);
            proof {
                assert(self@.ops.subrange(self@.ip, j + 1).map_values(
                    |op: Operation| op_symbol(op),
                ) =~= self@.ops.subrange(self@.ip, j as int).map_values(
                    |op: Operation| op_symbol(op),
                ).push(op_symbol(self@.ops[j as int])));
                assert(out@ =~= prefix + ops_text(self@.ops.subrange(self@.ip, j + 1)));
            }
            j = j + 1;
        }
        proof {
            assert(self@.ops.subrange(self@.ip, n as int) =~= self@.ops.skip(self@.ip));
            assert(out@ =~= machine_text(self@));
        }
        out
    }
}

} // verus!
