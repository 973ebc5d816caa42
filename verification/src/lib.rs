//! An interpreter for a minimal eight-instruction tape-machine language:
//! a growable tape of wraparound 8-bit cells, and a step-at-a-time
//! instruction dispatcher that resolves bracket loops at run time.

pub mod machine;
pub mod program;
pub mod render;
pub mod tape;

pub use machine::Machine;
pub use machine::MachineError;
pub use machine::Operation;
pub use machine::StepResult;
pub use program::parse_program;
pub use tape::Tape;
