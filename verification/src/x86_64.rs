//! The x86-64 architecture.

pub mod arch;
pub mod framepointer;
pub mod instruction_analysis;
pub mod macho;
pub mod opcode;
pub mod unwind_rule;
pub mod unwindregs;
