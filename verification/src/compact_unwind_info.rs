//! The compact unwind metadata: its opcode words and the per-architecture
//! meaning of each opcode kind.

use vstd::prelude::*;

pub mod bitfield;
pub mod bytes;
pub mod encoding;
pub mod error;
pub mod header;
pub mod opcodes;
pub mod pages;

verus! {

/// The opcode kind shared by all architectures: no unwind information.
pub const OPCODE_KIND_NULL: u8 = 0;

pub const OPCODE_KIND_X86_FRAMEBASED: u8 = 1;

pub const OPCODE_KIND_X86_FRAMELESS_IMMEDIATE: u8 = 2;

pub const OPCODE_KIND_X86_FRAMELESS_INDIRECT: u8 = 3;

pub const OPCODE_KIND_X86_DWARF: u8 = 4;

pub const OPCODE_KIND_ARM64_FRAMELESS: u8 = 2;

pub const OPCODE_KIND_ARM64_DWARF: u8 = 3;

pub const OPCODE_KIND_ARM64_FRAMEBASED: u8 = 4;

} // verus!
