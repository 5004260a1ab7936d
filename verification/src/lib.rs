//! Stack unwinding from compact unwind information.
//!
//! The crate decodes the compact unwind metadata of a machine-code image,
//! turns an opcode into an unwind rule, executes rules against a register
//! set with a caller-supplied memory reader, and caches rules by address.

pub mod arch;
pub mod compact_unwind_info;
pub mod error;
pub mod instruction_analysis;
pub mod macho;
pub mod rule_cache;
pub mod unwind_result;
pub mod unwind_rule;
pub mod x86_64;
