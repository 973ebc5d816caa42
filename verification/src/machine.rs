//! The execution engine: an instruction dispatcher over a fixed operation
//! sequence, with a loop stack for open brackets and a skip marker used to
//! fast-forward past a loop whose guard is false. Byte input and output are
//! surfaced as step results so that a driver can perform them; the machine
//! itself never touches a channel.

use vstd::prelude::*;

use crate::tape::{
    add_spec, shift_left_spec, shift_right_spec, subtract_spec, write_spec, Tape, TapeModel,
};

verus! {

/// One instruction of the eight-instruction language.
#[derive(Clone, Copy, Debug, PartialEq, Eq, Structural)]
pub enum Operation {
    /// `+`: add one to the cell under the head.
    Add,
    /// `-`: subtract one from the cell under the head.
    Subtract,
    /// `,`: read one byte into the cell under the head.
    Read,
    /// `.`: write the cell under the head as one byte.
    Write,
    /// `<`: move the head one cell to the left.
    Left,
    /// `>`: move the head one cell to the right.
    Right,
    /// `[`: enter the loop if the guard cell is nonzero, else skip past it.
    Start,
    /// `]`: close the innermost open loop, jumping back if the guard holds.
    End,
}

/// What a single step did, and what the driver must now do.
#[derive(Clone, Copy, Debug, PartialEq, Eq, Structural)]
pub enum StepResult {
    /// The instruction pointer is past the end of the program; nothing ran.
    Halted,
    /// One operation was executed (or skipped); no input or output is owed.
    Stepped,
    /// The current operation reads a byte: the machine did not move, and the
    /// driver must supply one byte through `feed_input` (or abort).
    NeedsInput,
    /// The current operation wrote this byte; the driver must emit it.
    Output(u8),
}

/// A fatal condition that ends the run.
#[derive(Clone, Copy, Debug, PartialEq, Eq, Structural)]
pub enum MachineError {
    /// A `]` was met while no loop was open, at this instruction position.
    UnmatchedEnd { position: usize },
}

/// Mathematical model of the machine state.
#[verifier::ext_equal]
pub struct MachineModel {
    pub tape: TapeModel,
    pub ops: Seq<Operation>,
    pub ip: int,
    pub loop_stack: Seq<usize>,
    pub jumping: Option<usize>,
}

impl MachineModel {
    pub open spec fn wf(self) -> bool {
        &&& self.tape.wf()
        &&& 0 <= self.ip <= self.ops.len()
        &&& forall|i: int|
            0 <= i < self.loop_stack.len() ==> (#[trigger] self.loop_stack[i]) < self.ops.len()
    }

    /// The machine is paused on a read: the driver owes it one input byte.
    pub open spec fn awaiting_input(self) -> bool {
        &&& self.ip < self.ops.len()
        &&& self.ops[self.ip] == Operation::Read
        &&& self.jumping is None
    }
}

/// The state after one step together with what the step reported.
#[verifier::ext_equal]
pub struct StepOutcome {
    pub post: MachineModel,
    pub result: Result<StepResult, MachineError>,
}

/// Advance past the current operation into the state `m`.
pub open spec fn advanced(m: MachineModel) -> StepOutcome {
    StepOutcome {
        post: MachineModel { ip: m.ip + 1, ..m },
        result: Ok(StepResult::Stepped),
    }
}

/// The single-step transition of the machine: from a pre-state to the
/// post-state and the reported result. A step on a read operation leaves the
/// state unchanged and asks for input; `feed_spec` describes the rest of
/// that operation once the byte arrives.
pub open spec fn step_spec(pre: MachineModel) -> StepOutcome {
    if pre.ip >= pre.ops.len() {
        StepOutcome { post: pre, result: Ok(StepResult::Halted) }
    } else {
        let op = pre.ops[pre.ip];
        match pre.jumping {
            None => match op {
                Operation::Add => advanced(MachineModel { tape: add_spec(pre.tape, 1), ..pre }),
                Operation::Subtract => advanced(
                    MachineModel { tape: subtract_spec(pre.tape, 1), ..pre },
                ),
                Operation::Read => StepOutcome { post: pre, result: Ok(StepResult::NeedsInput) },
                Operation::Write => StepOutcome {
                    post: MachineModel { ip: pre.ip + 1, ..pre },
                    result: Ok(StepResult::Output(pre.tape.current())),
                },
                Operation::Left => advanced(
                    MachineModel { tape: shift_left_spec(pre.tape, 1), ..pre },
                ),
                Operation::Right => advanced(
                    MachineModel { tape: shift_right_spec(pre.tape, 1), ..pre },
                ),
                Operation::Start => advanced(
                    MachineModel {
                        loop_stack: pre.loop_stack.push(pre.ip as usize),
                        jumping: if pre.tape.current() == 0 {
                            Some(pre.ip as usize)
                        } else {
                            None
                        },
                        ..pre
                    },
                ),
                Operation::End => {
                    if pre.loop_stack.len() == 0 {
                        StepOutcome {
                            post: pre,
                            result: Err(
                                MachineError::UnmatchedEnd { position: pre.ip as usize },
                            ),
                        }
                    } else {
                        let target = pre.loop_stack.last();
                        let popped = MachineModel {
                            loop_stack: pre.loop_stack.drop_last(),
                            ..pre
                        };
                        if pre.tape.current() != 0 {
                            StepOutcome {
                                post: MachineModel { ip: target as int, ..popped },
                                result: Ok(StepResult::Stepped),
                            }
                        } else {
                            advanced(popped)
                        }
                    }
                },
            },
            Some(origin) => match op {
                Operation::Start => advanced(
                    MachineModel { loop_stack: pre.loop_stack.push(pre.ip as usize), ..pre },
                ),
                Operation::End => {
                    if pre.loop_stack.len() == 0 {
                        StepOutcome {
                            post: pre,
                            result: Err(
                                MachineError::UnmatchedEnd { position: pre.ip as usize },
                            ),
                        }
                    } else {
                        advanced(
                            MachineModel {
                                loop_stack: pre.loop_stack.drop_last(),
                                jumping: if pre.loop_stack.last() == origin {
                                    None
                                } else {
                                    pre.jumping
                                },
                                ..pre
                            },
                        )
                    }
                },
                _ => advanced(pre),
            },
        }
    }
}

/// The rest of a read operation, once the driver has a byte: the byte lands
/// in the cell under the head and the instruction pointer moves on.
pub open spec fn feed_spec(pre: MachineModel, byte: u8) -> MachineModel {
    MachineModel { tape: write_spec(pre.tape, byte), ip: pre.ip + 1, ..pre }
}

/// Skip law: while the machine is fast-forwarding past a loop whose guard
/// was false, no step mutates the tape, asks for input, or emits output —
/// skipped operations are scanned, nothing more.
pub proof fn lemma_skip_has_no_effects(pre: MachineModel)
    requires
        pre.jumping is Some,
    ensures
        step_spec(pre).post.tape == pre.tape,
        step_spec(pre).post.jumping is Some ==> step_spec(pre).post.jumping == pre.jumping,
        step_spec(pre).result == Ok::<StepResult, MachineError>(StepResult::Stepped)
            || step_spec(pre).result == Ok::<StepResult, MachineError>(StepResult::Halted)
            || step_spec(pre).result is Err,
{
}

pub struct Machine {
    tape: Tape,
    operations: Vec<Operation>,
    instruction_pointer: usize,
    loop_stack: Vec<usize>,
    jumping: Option<usize>,
}

impl View for Machine {
    type V = MachineModel;

    closed spec fn view(&self) -> MachineModel {
        MachineModel {
            tape: self.tape@,
            ops: self.operations@,
            ip: self.instruction_pointer as int,
            loop_stack: self.loop_stack@,
            jumping: self.jumping,
        }
    }
}

impl Machine {
    /// A machine at the start of the given program, with a fresh tape.
    pub fn new(operations: Vec<Operation>) -> (m: Machine)
        ensures
            m@.wf(),
            m@.ops == operations@,
            m@.ip == 0,
            m@.loop_stack == Seq::<usize>::empty(),
            m@.jumping is None,
            m@.tape.head == 0,
            m@.tape.cells == seq![0u8],
    {
        let m = Machine {
            tape: Tape::new(),
            operations,
            instruction_pointer: 0,
            loop_stack: Vec::new(),
            jumping: None,
        };
        proof {
            assert(m@.loop_stack =~= Seq::<usize>::empty());
        }
        m
    }

    /// Execute exactly one operation (or one skip-mode transition), or
    /// report that the program is over, that a byte of input is owed, or
    /// that a `]` had no open loop to close.
    pub fn step(&mut self) -> (r: Result<StepResult, MachineError>)
        requires
            old(self)@.wf(),
        ensures
            final(self)@.wf(),
            final(self)@ == step_spec(old(self)@).post,
            r == step_spec(old(self)@).result,
    {
        if self.instruction_pointer >= self.operations.len() {
            return Ok(StepResult::Halted);
        }
        let mut result = StepResult::Stepped;
        match self.jumping {
            None => match self.operations[self.instruction_pointer] {
                Operation::Add => self.tape.add(&1),
                Operation::Subtract => self.tape.subtract(&1),
                Operation::Read => {
                    return Ok(StepResult::NeedsInput);
                },
                Operation::Write => {
                    result = StepResult::Output(self.tape.read());
                },
                Operation::Left => self.tape.shift_left(&1),
                Operation::Right => {
                    proof {
                        self.tape.lemma_view_fits();
                    }
                    self.tape.shift_right(&1);
                },
                Operation::Start => {
                    if self.tape.read() == 0 {
                        self.jumping = Some(self.instruction_pointer);
                    }
                    self.loop_stack.push(self.instruction_pointer);
                },
                Operation::End => {
                    match self.loop_stack.pop() {
                        None => {
                            return Err(
                                MachineError::UnmatchedEnd { position: self.instruction_pointer },
                            );
                        },
                        Some(jump) => {
                            if self.tape.read() != 0 {
                                self.instruction_pointer = jump;
                                proof {
                                    assert(self@ =~~= step_spec(old(self)@).post);
                                }
                                return Ok(StepResult::Stepped);
                            }
                        },
                    }
                },
            },
            Some(from) => match self.operations[self.instruction_pointer] {
                Operation::Start => {
                    self.loop_stack.push(self.instruction_pointer);
                },
                Operation::End => {
                    match self.loop_stack.pop() {
                        None => {
                            return Err(
                                MachineError::UnmatchedEnd { position: self.instruction_pointer },
                            );
                        },
                        Some(start) => {
                            if from == start {
                                self.jumping = None;
                            }
                        },
                    }
                },
                _ => {},
            },
        }
        self.instruction_pointer = self.instruction_pointer + 1;
        proof {
            assert(self@ =~~= step_spec(old(self)@).post);
        }
        Ok(result)
    }

    /// Whether the machine is paused on a read operation.
    pub fn wants_input(&self) -> (r: bool)
        ensures
            r == self@.awaiting_input(),
    {
        if self.instruction_pointer < self.operations.len() {
            match self.jumping {
                None => match self.operations[self.instruction_pointer] {
                    Operation::Read => true,
                    _ => false,
                },
                Some(_) => false,
            }
        } else {
            false
        }
    }

    /// Deliver the one byte that a pending read operation asked for: it is
    /// written to the cell under the head and execution moves on.
    pub fn feed_input(&mut self, byte: u8)
        requires
            old(self)@.wf(),
            old(self)@.awaiting_input(),
        ensures
            final(self)@.wf(),
            final(self)@ == feed_spec(old(self)@, byte),
    {
        self.tape.write(&byte);
        proof {
            vstd::std_specs::vec::axiom_spec_len(&self.operations);
        }
        self.instruction_pointer = self.instruction_pointer + 1;
        proof {
            assert(self@ =~~= feed_spec(old(self)@, byte));
        }
    }

    /// The current instruction position, for diagnostics.
    pub fn position(&self) -> (p: usize)
        ensures
            p == self@.ip,
    {
        self.instruction_pointer
    }

    /// The number of operations in the program.
    pub fn program_len(&self) -> (n: usize)
        ensures
            n == self@.ops.len(),
    {
        self.operations.len()
    }

    /// The operation at position `i` of the program.
    pub fn op_at(&self, i: usize) -> (op: Operation)
        requires
            i < self@.ops.len(),
        ensures
            op == self@.ops[i as int],
    {
        self.operations[i]
    }

    /// A read-only view of the tape.
    pub fn tape(&self) -> (t: &Tape)
        ensures
            t@ == self@.tape,
    {
        &self.tape
    }
}

} // verus!
