//! The x86-64 opcode as the unwinder reads it.

use vstd::prelude::*;
use macho_unwind_info::opcodes::OpcodeX86_64;
use macho_unwind_info::opcodes::RegisterNameX86_64;
use crate::compact_unwind_info::bitfield::field;
use crate::compact_unwind_info::bitfield::kind_of;
use crate::compact_unwind_info::opcodes::OpcodeRegX86_64;

verus! {

/// The shape of an x86-64 opcode, with the fields that unwinding reads.
#[derive(Clone, Copy, Debug, PartialEq, Eq)]
pub enum UnwindOpcodeX86_64 {
    /// No unwind information covers the address.
    Null,
    /// The function has a frame pointer.
    FrameBased,
    /// The function has no frame pointer and a stack of known size, which
    /// counts the return address. `saved_regs` holds the registers in the
    /// order in which they are popped: the last one is the outermost.
    FramelessImmediate { stack_size_in_bytes: u16, saved_regs: [Option<OpcodeRegX86_64>; 6] },
    /// The function has no frame pointer, and its stack size is in its code.
    FramelessIndirect,
    /// The function needs the call frame information at this offset.
    Dwarf { eh_frame_fde: u32 },
    /// A frameless opcode whose saved registers are not validly encoded.
    InvalidFramelessImmediate,
    /// An opcode of a kind that x86-64 does not define.
    UnrecognizedKind(u8),
}

/// What `macho_unwind_info` makes of an opcode word of x86-64.
pub uninterp spec fn parsed_opcode_x86_64(opcode: u32) -> UnwindOpcodeX86_64;

/// What the kind of an opcode word says of the shape `parsed` of the
/// opcode: the kind decides the shape, a DWARF opcode holds the low 24 bits
/// of the word, an opcode of an unknown kind holds the kind, and a
/// frameless opcode with a stack size holds eight times the stack field of
/// the word. Which registers a frameless opcode saved, and whether they
/// are validly encoded, is not said here.
pub open spec fn shape_follows_kind(opcode: u32, parsed: UnwindOpcodeX86_64) -> bool {
    let kind = kind_of(opcode);
    if kind == 0 {
        parsed is Null
    } else if kind == 1 {
        parsed is FrameBased
    } else if kind == 2 {
        parsed is InvalidFramelessImmediate || (parsed is FramelessImmediate
            && parsed->stack_size_in_bytes == 8 * field(opcode, 0x1_0000, 0x100))
    } else if kind == 3 {
        parsed is FramelessIndirect
    } else if kind == 4 {
        parsed == (UnwindOpcodeX86_64::Dwarf { eh_frame_fde: field(opcode, 1, 0x100_0000) as u32 })
    } else {
        parsed == UnwindOpcodeX86_64::UnrecognizedKind(kind as u8)
    }
}

/// Calls `macho_unwind_info::opcodes::OpcodeX86_64::parse` and hands its
/// result on variant by variant, each register under the same name.
///
/// Two things are claimed of the result and not proved. The opcode word
/// determines it. And its shape follows the kind of the word, which that
/// function reads from bits 24 to 27, as `shape_follows_kind` says. How that
/// function decodes the saved registers of a frameless opcode is not
/// stated.
#[verifier::external_body]
pub(crate) fn parse_opcode(opcode: u32) -> (parsed: UnwindOpcodeX86_64)
    ensures
        parsed == parsed_opcode_x86_64(opcode),
        shape_follows_kind(opcode, parsed),
{
    let reg = |name: RegisterNameX86_64| match name {
        RegisterNameX86_64::Rbx => OpcodeRegX86_64::Rbx, RegisterNameX86_64::R12 => OpcodeRegX86_64::R12,
        RegisterNameX86_64::R13 => OpcodeRegX86_64::R13, RegisterNameX86_64::R14 => OpcodeRegX86_64::R14,
        RegisterNameX86_64::R15 => OpcodeRegX86_64::R15, RegisterNameX86_64::Rbp => OpcodeRegX86_64::Rbp,
    };
    match OpcodeX86_64::parse(opcode) {
        OpcodeX86_64::Null => UnwindOpcodeX86_64::Null,
        OpcodeX86_64::FrameBased { .. } => UnwindOpcodeX86_64::FrameBased,
        OpcodeX86_64::FramelessImmediate { stack_size_in_bytes, saved_regs } => UnwindOpcodeX86_64::FramelessImmediate { stack_size_in_bytes, saved_regs: saved_regs.map(|r| r.map(reg)) },
        OpcodeX86_64::FramelessIndirect => UnwindOpcodeX86_64::FramelessIndirect,
        OpcodeX86_64::Dwarf { eh_frame_fde } => UnwindOpcodeX86_64::Dwarf { eh_frame_fde },
        OpcodeX86_64::InvalidFramelessImmediate => UnwindOpcodeX86_64::InvalidFramelessImmediate,
        OpcodeX86_64::UnrecognizedKind(kind) => UnwindOpcodeX86_64::UnrecognizedKind(kind),
    }
}

/// The place of the frame base among the saved registers, counted from the
/// outermost one: the slots are walked from the last to the first, the empty
/// ones are passed over, and `met` registers have been met so far.
pub open spec fn rbp_position_from(slots: Seq<Option<OpcodeRegX86_64>>, met: int) -> Option<int>
    decreases slots.len(),
{
    if slots.len() == 0 {
        None
    } else {
        match slots.last() {
            Some(OpcodeRegX86_64::Rbp) => Some(met),
            Some(_) => rbp_position_from(slots.drop_last(), met + 1),
            None => rbp_position_from(slots.drop_last(), met),
        }
    }
}

/// How many registers were saved outside the frame base, if the frame base
/// was saved at all.
pub open spec fn rbp_position(slots: Seq<Option<OpcodeRegX86_64>>) -> Option<int> {
    rbp_position_from(slots, 0)
}

/// Finds the frame base among the saved registers.
pub fn rbp_position_from_outside(saved_regs: &[Option<OpcodeRegX86_64>; 6]) -> (position: Option<
    usize,
>)
    ensures
        position matches Some(p) ==> rbp_position(saved_regs@) == Some(p as int) && p < 6,
        position is None ==> rbp_position(saved_regs@) is None,
{
    let mut i: usize = 6;
    let mut met: usize = 0;
    assert(saved_regs@.take(6) == saved_regs@);
    while i > 0
        invariant
            i <= 6,
            met <= 6 - i,
            rbp_position(saved_regs@) == rbp_position_from(saved_regs@.take(i as int), met as int),
        decreases i,
    {
        assert(saved_regs@.take(i as int).drop_last() == saved_regs@.take(i - 1));
        i = i - 1;
        match saved_regs[i] {
            Some(OpcodeRegX86_64::Rbp) => {
                return Some(met);
            },
            Some(_) => {
                met = met + 1;
            },
            None => {},
        }
    }
    None
}

} // verus!
