//! What an opcode word means on each architecture.

use vstd::prelude::*;
use super::bitfield::field;
use super::bitfield::kind_of;
use super::bitfield::OpcodeBitfield;
use super::OPCODE_KIND_ARM64_DWARF;
use super::OPCODE_KIND_ARM64_FRAMEBASED;
use super::OPCODE_KIND_ARM64_FRAMELESS;
use super::OPCODE_KIND_NULL;
use super::OPCODE_KIND_X86_DWARF;
use super::OPCODE_KIND_X86_FRAMEBASED;
use super::OPCODE_KIND_X86_FRAMELESS_IMMEDIATE;
use super::OPCODE_KIND_X86_FRAMELESS_INDIRECT;

verus! {

/// The stack field of an x86 or x86-64 opcode: bits 16 to 23.
fn x86_stack_field(word: u32) -> (value: u16)
    ensures
        value == field(word, 0x1_0000, 0x100),
        value <= 255,
{
    assert((word >> 16) & 0xff == (word / 0x1_0000) % 0x100) by (bit_vector);
    ((word >> 16) & 0xff) as u16
}

/// The saved-register slot `slot` of a frame-based x86 or x86-64 opcode.
/// Slot 0 is the outermost: it lies in bits 12 to 14, and each further slot
/// three bits lower.
fn x86_register_slot(word: u32, slot: u8) -> (value: u32)
    requires
        slot < 5,
    ensures
        value == register_slot(word, slot as int),
{
    if slot == 0 {
        assert((word >> 12) & 0b111 == (word / 0x1000) % 8) by (bit_vector);
        (word >> 12) & 0b111
    } else if slot == 1 {
        assert((word >> 9) & 0b111 == (word / 0x200) % 8) by (bit_vector);
        (word >> 9) & 0b111
    } else if slot == 2 {
        assert((word >> 6) & 0b111 == (word / 0x40) % 8) by (bit_vector);
        (word >> 6) & 0b111
    } else if slot == 3 {
        assert((word >> 3) & 0b111 == (word / 8) % 8) by (bit_vector);
        (word >> 3) & 0b111
    } else {
        assert(word & 0b111 == word % 8) by (bit_vector);
        word & 0b111
    }
}

/// The offset of the call frame information that a DWARF opcode points to:
/// the low 24 bits.
fn dwarf_fde(word: u32) -> (value: u32)
    ensures
        value == field(word, 1, 0x100_0000),
{
    assert(word & 0xffffff == word % 0x100_0000) by (bit_vector);
    word & 0xffffff
}

/// The stack field of a frameless ARM64 opcode: bits 12 to 23.
fn arm64_stack_field(word: u32) -> (value: u16)
    ensures
        value == field(word, 0x1000, 0x1000),
        value <= 4095,
{
    assert((word >> 12) & 0xfff == (word / 0x1000) % 0x1000) by (bit_vector);
    ((word >> 12) & 0xfff) as u16
}

/// Whether bit `bit` of the word is set.
fn arm64_pair_flag(word: u32, bit: u8) -> (set: bool)
    requires
        bit < 9,
    ensures
        set == pair_flag(word, bit as int),
{
    if bit == 0 {
        assert(word & 1 == word % 2) by (bit_vector);
        (word & 1) == 1
    } else if bit == 1 {
        assert((word >> 1) & 1 == (word / 2) % 2) by (bit_vector);
        ((word >> 1) & 1) == 1
    } else if bit == 2 {
        assert((word >> 2) & 1 == (word / 4) % 2) by (bit_vector);
        ((word >> 2) & 1) == 1
    } else if bit == 3 {
        assert((word >> 3) & 1 == (word / 8) % 2) by (bit_vector);
        ((word >> 3) & 1) == 1
    } else if bit == 4 {
        assert((word >> 4) & 1 == (word / 0x10) % 2) by (bit_vector);
        ((word >> 4) & 1) == 1
    } else if bit == 5 {
        assert((word >> 5) & 1 == (word / 0x20) % 2) by (bit_vector);
        ((word >> 5) & 1) == 1
    } else if bit == 6 {
        assert((word >> 6) & 1 == (word / 0x40) % 2) by (bit_vector);
        ((word >> 6) & 1) == 1
    } else if bit == 7 {
        assert((word >> 7) & 1 == (word / 0x80) % 2) by (bit_vector);
        ((word >> 7) & 1) == 1
    } else {
        assert((word >> 8) & 1 == (word / 0x100) % 2) by (bit_vector);
        ((word >> 8) & 1) == 1
    }
}

/// Whether bit `bit` of the word, from 0 to 8, is set: the flag of one
/// register pair of a frame-based ARM64 opcode.
pub open spec fn pair_flag(word: u32, bit: int) -> bool {
    if bit == 0 {
        field(word, 1, 2) == 1
    } else if bit == 1 {
        field(word, 2, 2) == 1
    } else if bit == 2 {
        field(word, 4, 2) == 1
    } else if bit == 3 {
        field(word, 8, 2) == 1
    } else if bit == 4 {
        field(word, 0x10, 2) == 1
    } else if bit == 5 {
        field(word, 0x20, 2) == 1
    } else if bit == 6 {
        field(word, 0x40, 2) == 1
    } else if bit == 7 {
        field(word, 0x80, 2) == 1
    } else {
        field(word, 0x100, 2) == 1
    }
}

/// The value of the saved-register slot `slot`, from 0 for the outermost to
/// 4 for the innermost.
pub open spec fn register_slot(word: u32, slot: int) -> int {
    if slot == 0 {
        field(word, 0x1000, 8)
    } else if slot == 1 {
        field(word, 0x200, 8)
    } else if slot == 2 {
        field(word, 0x40, 8)
    } else if slot == 3 {
        field(word, 8, 8)
    } else {
        field(word, 1, 8)
    }
}

/// A register that an x86 opcode can name in a saved-register slot.
#[derive(Copy, Clone, Debug, PartialEq, Eq, Structural)]
pub enum OpcodeRegX86 {
    Ebx,
    Ecx,
    Edx,
    Edi,
    Esi,
    Ebp,
}

impl OpcodeRegX86 {
    /// The number by which a saved-register slot names this register.
    pub open spec fn number(self) -> int {
        match self {
            OpcodeRegX86::Ebx => 1,
            OpcodeRegX86::Ecx => 2,
            OpcodeRegX86::Edx => 3,
            OpcodeRegX86::Edi => 4,
            OpcodeRegX86::Esi => 5,
            OpcodeRegX86::Ebp => 6,
        }
    }

    /// The register that a saved-register slot with the value `n` names.
    /// Zero means that the slot is empty; so does a value that numbers no
    /// register.
    pub open spec fn named(n: int) -> Option<Self> {
        if n == 1 {
            Some(OpcodeRegX86::Ebx)
        } else if n == 2 {
            Some(OpcodeRegX86::Ecx)
        } else if n == 3 {
            Some(OpcodeRegX86::Edx)
        } else if n == 4 {
            Some(OpcodeRegX86::Edi)
        } else if n == 5 {
            Some(OpcodeRegX86::Esi)
        } else if n == 6 {
            Some(OpcodeRegX86::Ebp)
        } else {
            None
        }
    }

    /// A slot names a register by its number, and in no other way.
    pub proof fn law_named_by_number(n: int, reg: Self)
        ensures
            Self::named(n) == Some(reg) <==> n == reg.number(),
    {
    }

    pub fn parse(n: u32) -> (reg: Option<Self>)
        ensures
            reg == Self::named(n as int),
    {
        match n {
            1 => Some(OpcodeRegX86::Ebx),
            2 => Some(OpcodeRegX86::Ecx),
            3 => Some(OpcodeRegX86::Edx),
            4 => Some(OpcodeRegX86::Edi),
            5 => Some(OpcodeRegX86::Esi),
            6 => Some(OpcodeRegX86::Ebp),
            _ => None,
        }
    }
}

/// A register that an x86-64 opcode can name in a saved-register slot.
#[derive(Copy, Clone, Debug, PartialEq, Eq, Structural)]
pub enum OpcodeRegX86_64 {
    Rbx,
    R12,
    R13,
    R14,
    R15,
    Rbp,
}

impl OpcodeRegX86_64 {
    /// The number by which a saved-register slot names this register.
    pub open spec fn number(self) -> int {
        match self {
            OpcodeRegX86_64::Rbx => 1,
            OpcodeRegX86_64::R12 => 2,
            OpcodeRegX86_64::R13 => 3,
            OpcodeRegX86_64::R14 => 4,
            OpcodeRegX86_64::R15 => 5,
            OpcodeRegX86_64::Rbp => 6,
        }
    }

    /// The register that a saved-register slot with the value `n` names.
    /// Zero means that the slot is empty; so does a value that numbers no
    /// register.
    pub open spec fn named(n: int) -> Option<Self> {
        if n == 1 {
            Some(OpcodeRegX86_64::Rbx)
        } else if n == 2 {
            Some(OpcodeRegX86_64::R12)
        } else if n == 3 {
            Some(OpcodeRegX86_64::R13)
        } else if n == 4 {
            Some(OpcodeRegX86_64::R14)
        } else if n == 5 {
            Some(OpcodeRegX86_64::R15)
        } else if n == 6 {
            Some(OpcodeRegX86_64::Rbp)
        } else {
            None
        }
    }

    /// A slot names a register by its number, and in no other way.
    pub proof fn law_named_by_number(n: int, reg: Self)
        ensures
            Self::named(n) == Some(reg) <==> n == reg.number(),
    {
    }

    pub fn parse(n: u32) -> (reg: Option<Self>)
        ensures
            reg == Self::named(n as int),
    {
        match n {
            1 => Some(OpcodeRegX86_64::Rbx),
            2 => Some(OpcodeRegX86_64::R12),
            3 => Some(OpcodeRegX86_64::R13),
            4 => Some(OpcodeRegX86_64::R14),
            5 => Some(OpcodeRegX86_64::R15),
            6 => Some(OpcodeRegX86_64::Rbp),
            _ => None,
        }
    }
}

/// An x86 opcode. Sizes and offsets are in bytes: the stack field of the
/// word counts words of four bytes.
#[derive(Copy, Clone, Debug, PartialEq, Eq)]
#[allow(inconsistent_fields)]
pub enum OpcodeX86 {
    /// No unwind information covers the address.
    Null,
    /// The function has a frame pointer. The saved registers are listed from
    /// the outermost to the innermost.
    FrameBased { stack_offset_in_bytes: u16, saved_regs: [Option<OpcodeRegX86>; 5] },
    /// The function has no frame pointer and a stack of known size.
    FramelessImmediate { stack_size_in_bytes: u16, saved_regs: [Option<OpcodeRegX86>; 6] },
    /// The function has no frame pointer, and its stack size is in its code.
    FramelessIndirect,
    /// The function needs the call frame information at this offset.
    Dwarf { eh_frame_fde: u32 },
}

impl OpcodeX86 {
    /// What the opcode word `word` means on x86; nothing where its kind is
    /// none that x86 defines.
    pub open spec fn meaning(word: u32) -> Option<Self> {
        let kind = kind_of(word);
        if kind == OPCODE_KIND_NULL {
            Some(OpcodeX86::Null)
        } else if kind == OPCODE_KIND_X86_FRAMEBASED {
            Some(
                OpcodeX86::FrameBased {
                    stack_offset_in_bytes: (4 * field(word, 0x1_0000, 0x100)) as u16,
                    saved_regs: [
                        OpcodeRegX86::named(register_slot(word, 0)),
                        OpcodeRegX86::named(register_slot(word, 1)),
                        OpcodeRegX86::named(register_slot(word, 2)),
                        OpcodeRegX86::named(register_slot(word, 3)),
                        OpcodeRegX86::named(register_slot(word, 4)),
                    ],
                },
            )
        } else if kind == OPCODE_KIND_X86_FRAMELESS_IMMEDIATE {
            Some(
                OpcodeX86::FramelessImmediate {
                    stack_size_in_bytes: (4 * field(word, 0x1_0000, 0x100)) as u16,
                    saved_regs: [None, None, None, None, None, None],
                },
            )
        } else if kind == OPCODE_KIND_X86_FRAMELESS_INDIRECT {
            Some(OpcodeX86::FramelessIndirect)
        } else if kind == OPCODE_KIND_X86_DWARF {
            Some(OpcodeX86::Dwarf { eh_frame_fde: field(word, 1, 0x100_0000) as u32 })
        } else {
            None
        }
    }

    pub fn parse(opcode: &OpcodeBitfield) -> (parsed: Option<Self>)
        ensures
            parsed == Self::meaning(opcode.0),
    {
        let kind = opcode.kind();
        let opcode = if kind == OPCODE_KIND_NULL {
            OpcodeX86::Null
        } else if kind == OPCODE_KIND_X86_FRAMEBASED {
            OpcodeX86::FrameBased {
                stack_offset_in_bytes: x86_stack_field(opcode.0) * 4,
                saved_regs: [
                    OpcodeRegX86::parse(x86_register_slot(opcode.0, 0)),
                    OpcodeRegX86::parse(x86_register_slot(opcode.0, 1)),
                    OpcodeRegX86::parse(x86_register_slot(opcode.0, 2)),
                    OpcodeRegX86::parse(x86_register_slot(opcode.0, 3)),
                    OpcodeRegX86::parse(x86_register_slot(opcode.0, 4)),
                ],
            }
        } else if kind == OPCODE_KIND_X86_FRAMELESS_IMMEDIATE {
            OpcodeX86::FramelessImmediate {
                stack_size_in_bytes: x86_stack_field(opcode.0) * 4,
                saved_regs: [None, None, None, None, None, None],
            }
        } else if kind == OPCODE_KIND_X86_FRAMELESS_INDIRECT {
            OpcodeX86::FramelessIndirect
        } else if kind == OPCODE_KIND_X86_DWARF {
            OpcodeX86::Dwarf { eh_frame_fde: dwarf_fde(opcode.0) }
        } else {
            return None;
        };
        Some(opcode)
    }
}

/// An x86-64 opcode. Sizes and offsets are in bytes: the stack field of the
/// word counts words of eight bytes.
#[derive(Copy, Clone, Debug, PartialEq, Eq)]
#[allow(inconsistent_fields)]
pub enum OpcodeX86_64 {
    /// No unwind information covers the address.
    Null,
    /// The function has a frame pointer. The saved registers are listed from
    /// the outermost to the innermost.
    FrameBased { stack_offset_in_bytes: u16, saved_regs: [Option<OpcodeRegX86_64>; 5] },
    /// The function has no frame pointer and a stack of known size.
    FramelessImmediate { stack_size_in_bytes: u16, saved_regs: [Option<OpcodeRegX86_64>; 6] },
    /// The function has no frame pointer, and its stack size is in its code.
    FramelessIndirect,
    /// The function needs the call frame information at this offset.
    Dwarf { eh_frame_fde: u32 },
}

impl OpcodeX86_64 {
    /// What the opcode word `word` means on x86-64; nothing where its kind
    /// is none that x86-64 defines.
    pub open spec fn meaning(word: u32) -> Option<Self> {
        let kind = kind_of(word);
        if kind == OPCODE_KIND_NULL {
            Some(OpcodeX86_64::Null)
        } else if kind == OPCODE_KIND_X86_FRAMEBASED {
            Some(
                OpcodeX86_64::FrameBased {
                    stack_offset_in_bytes: (8 * field(word, 0x1_0000, 0x100)) as u16,
                    saved_regs: [
                        OpcodeRegX86_64::named(register_slot(word, 0)),
                        OpcodeRegX86_64::named(register_slot(word, 1)),
                        OpcodeRegX86_64::named(register_slot(word, 2)),
                        OpcodeRegX86_64::named(register_slot(word, 3)),
                        OpcodeRegX86_64::named(register_slot(word, 4)),
                    ],
                },
            )
        } else if kind == OPCODE_KIND_X86_FRAMELESS_IMMEDIATE {
            Some(
                OpcodeX86_64::FramelessImmediate {
                    stack_size_in_bytes: (8 * field(word, 0x1_0000, 0x100)) as u16,
                    saved_regs: [None, None, None, None, None, None],
                },
            )
        } else if kind == OPCODE_KIND_X86_FRAMELESS_INDIRECT {
            Some(OpcodeX86_64::FramelessIndirect)
        } else if kind == OPCODE_KIND_X86_DWARF {
            Some(OpcodeX86_64::Dwarf { eh_frame_fde: field(word, 1, 0x100_0000) as u32 })
        } else {
            None
        }
    }

    pub fn parse(opcode: &OpcodeBitfield) -> (parsed: Option<Self>)
        ensures
            parsed == Self::meaning(opcode.0),
    {
        let kind = opcode.kind();
        let opcode = if kind == OPCODE_KIND_NULL {
            OpcodeX86_64::Null
        } else if kind == OPCODE_KIND_X86_FRAMEBASED {
            OpcodeX86_64::FrameBased {
                stack_offset_in_bytes: x86_stack_field(opcode.0) * 8,
                saved_regs: [
                    OpcodeRegX86_64::parse(x86_register_slot(opcode.0, 0)),
                    OpcodeRegX86_64::parse(x86_register_slot(opcode.0, 1)),
                    OpcodeRegX86_64::parse(x86_register_slot(opcode.0, 2)),
                    OpcodeRegX86_64::parse(x86_register_slot(opcode.0, 3)),
                    OpcodeRegX86_64::parse(x86_register_slot(opcode.0, 4)),
                ],
            }
        } else if kind == OPCODE_KIND_X86_FRAMELESS_IMMEDIATE {
            OpcodeX86_64::FramelessImmediate {
                stack_size_in_bytes: x86_stack_field(opcode.0) * 8,
                saved_regs: [None, None, None, None, None, None],
            }
        } else if kind == OPCODE_KIND_X86_FRAMELESS_INDIRECT {
            OpcodeX86_64::FramelessIndirect
        } else if kind == OPCODE_KIND_X86_DWARF {
            OpcodeX86_64::Dwarf { eh_frame_fde: dwarf_fde(opcode.0) }
        } else {
            return None;
        };
        Some(opcode)
    }
}

/// A pair of registers that a frame-based ARM64 function can save. The
/// order of the variants is the order in which the pairs lie in the frame.
#[derive(Copy, Clone, Debug, PartialEq, Eq, Structural)]
pub enum RegisterPairArm64 {
    X19X20,
    X21X22,
    X23X24,
    X25X26,
    X27X28,
    D8D9,
    D10D11,
    D12D13,
    D14D15,
}

impl RegisterPairArm64 {
    /// The pairs in the order in which they lie in the frame.
    pub open spec fn in_frame_order() -> Seq<RegisterPairArm64> {
        seq![
            RegisterPairArm64::X19X20,
            RegisterPairArm64::X21X22,
            RegisterPairArm64::X23X24,
            RegisterPairArm64::X25X26,
            RegisterPairArm64::X27X28,
            RegisterPairArm64::D8D9,
            RegisterPairArm64::D10D11,
            RegisterPairArm64::D12D13,
            RegisterPairArm64::D14D15,
        ]
    }

    /// The pair at place `place` of the frame order.
    fn at(place: usize) -> (pair: RegisterPairArm64)
        requires
            place < 9,
        ensures
            pair == Self::in_frame_order()[place as int],
    {
        match place {
            0 => RegisterPairArm64::X19X20,
            1 => RegisterPairArm64::X21X22,
            2 => RegisterPairArm64::X23X24,
            3 => RegisterPairArm64::X25X26,
            4 => RegisterPairArm64::X27X28,
            5 => RegisterPairArm64::D8D9,
            6 => RegisterPairArm64::D10D11,
            7 => RegisterPairArm64::D12D13,
            _ => RegisterPairArm64::D14D15,
        }
    }
}

/// An ARM64 opcode. The stack size is in bytes: the stack field of the word
/// counts units of sixteen bytes.
#[derive(Copy, Clone, Debug, PartialEq, Eq)]
pub enum OpcodeArm64 {
    /// No unwind information covers the address.
    Null,
    /// The function has no frame record; the return address is in the link
    /// register.
    Frameless { stack_size_in_bytes: u16 },
    /// The function needs the call frame information at this offset.
    Dwarf { eh_frame_fde: u32 },
    /// The function has a frame record. Each flag says whether the pair of
    /// registers was pushed.
    FrameBased {
        d14_and_d15_saved: bool,
        d12_and_d13_saved: bool,
        d10_and_d11_saved: bool,
        d8_and_d9_saved: bool,
        x27_and_x28_saved: bool,
        x25_and_x26_saved: bool,
        x23_and_x24_saved: bool,
        x21_and_x22_saved: bool,
        x19_and_x20_saved: bool,
    },
}

impl OpcodeArm64 {
    /// What the opcode word `word` means on ARM64; nothing where its kind is
    /// none that ARM64 defines.
    pub open spec fn meaning(word: u32) -> Option<Self> {
        let kind = kind_of(word);
        if kind == OPCODE_KIND_NULL {
            Some(OpcodeArm64::Null)
        } else if kind == OPCODE_KIND_ARM64_FRAMELESS {
            Some(
                OpcodeArm64::Frameless {
                    stack_size_in_bytes: (16 * field(word, 0x1000, 0x1000)) as u16,
                },
            )
        } else if kind == OPCODE_KIND_ARM64_DWARF {
            Some(OpcodeArm64::Dwarf { eh_frame_fde: field(word, 1, 0x100_0000) as u32 })
        } else if kind == OPCODE_KIND_ARM64_FRAMEBASED {
            Some(
                OpcodeArm64::FrameBased {
                    d14_and_d15_saved: pair_flag(word, 8),
                    d12_and_d13_saved: pair_flag(word, 7),
                    d10_and_d11_saved: pair_flag(word, 6),
                    d8_and_d9_saved: pair_flag(word, 5),
                    x27_and_x28_saved: pair_flag(word, 4),
                    x25_and_x26_saved: pair_flag(word, 3),
                    x23_and_x24_saved: pair_flag(word, 2),
                    x21_and_x22_saved: pair_flag(word, 1),
                    x19_and_x20_saved: pair_flag(word, 0),
                },
            )
        } else {
            None
        }
    }

    pub fn parse(opcode: &OpcodeBitfield) -> (parsed: Option<Self>)
        ensures
            parsed == Self::meaning(opcode.0),
    {
        let kind = opcode.kind();
        let opcode = if kind == OPCODE_KIND_NULL {
            OpcodeArm64::Null
        } else if kind == OPCODE_KIND_ARM64_FRAMELESS {
            OpcodeArm64::Frameless { stack_size_in_bytes: arm64_stack_field(opcode.0) * 16 }
        } else if kind == OPCODE_KIND_ARM64_DWARF {
            OpcodeArm64::Dwarf { eh_frame_fde: dwarf_fde(opcode.0) }
        } else if kind == OPCODE_KIND_ARM64_FRAMEBASED {
            OpcodeArm64::FrameBased {
                d14_and_d15_saved: arm64_pair_flag(opcode.0, 8),
                d12_and_d13_saved: arm64_pair_flag(opcode.0, 7),
                d10_and_d11_saved: arm64_pair_flag(opcode.0, 6),
                d8_and_d9_saved: arm64_pair_flag(opcode.0, 5),
                x27_and_x28_saved: arm64_pair_flag(opcode.0, 4),
                x25_and_x26_saved: arm64_pair_flag(opcode.0, 3),
                x23_and_x24_saved: arm64_pair_flag(opcode.0, 2),
                x21_and_x22_saved: arm64_pair_flag(opcode.0, 1),
                x19_and_x20_saved: arm64_pair_flag(opcode.0, 0),
            }
        } else {
            return None;
        };
        Some(opcode)
    }

    /// Whether the function saved the pair `pair`. Only a frame-based
    /// function saves any.
    pub open spec fn saved(self, pair: RegisterPairArm64) -> bool {
        match self {
            OpcodeArm64::FrameBased {
                d14_and_d15_saved,
                d12_and_d13_saved,
                d10_and_d11_saved,
                d8_and_d9_saved,
                x27_and_x28_saved,
                x25_and_x26_saved,
                x23_and_x24_saved,
                x21_and_x22_saved,
                x19_and_x20_saved,
            } => match pair {
                RegisterPairArm64::X19X20 => x19_and_x20_saved,
                RegisterPairArm64::X21X22 => x21_and_x22_saved,
                RegisterPairArm64::X23X24 => x23_and_x24_saved,
                RegisterPairArm64::X25X26 => x25_and_x26_saved,
                RegisterPairArm64::X27X28 => x27_and_x28_saved,
                RegisterPairArm64::D8D9 => d8_and_d9_saved,
                RegisterPairArm64::D10D11 => d10_and_d11_saved,
                RegisterPairArm64::D12D13 => d12_and_d13_saved,
                RegisterPairArm64::D14D15 => d14_and_d15_saved,
            },
            _ => false,
        }
    }

    /// The saved pairs among the first `places` of the frame order, each
    /// with the offset of its first register from the frame record. The
    /// first saved pair lies at offset 16, and each further one sixteen
    /// bytes on; the second register of a pair lies eight bytes after the
    /// first.
    pub open spec fn saved_pairs_among(self, places: int) -> Seq<(RegisterPairArm64, u16)>
        decreases places,
    {
        if places <= 0 {
            Seq::empty()
        } else {
            let before = self.saved_pairs_among(places - 1);
            let pair = RegisterPairArm64::in_frame_order()[places - 1];
            if self.saved(pair) {
                before.push((pair, (16 + 16 * before.len()) as u16))
            } else {
                before
            }
        }
    }

    fn is_saved(&self, pair: RegisterPairArm64) -> (saved: bool)
        ensures
            saved == self.saved(pair),
    {
        match self {
            OpcodeArm64::FrameBased {
                d14_and_d15_saved,
                d12_and_d13_saved,
                d10_and_d11_saved,
                d8_and_d9_saved,
                x27_and_x28_saved,
                x25_and_x26_saved,
                x23_and_x24_saved,
                x21_and_x22_saved,
                x19_and_x20_saved,
            } => match pair {
                RegisterPairArm64::X19X20 => *x19_and_x20_saved,
                RegisterPairArm64::X21X22 => *x21_and_x22_saved,
                RegisterPairArm64::X23X24 => *x23_and_x24_saved,
                RegisterPairArm64::X25X26 => *x25_and_x26_saved,
                RegisterPairArm64::X27X28 => *x27_and_x28_saved,
                RegisterPairArm64::D8D9 => *d8_and_d9_saved,
                RegisterPairArm64::D10D11 => *d10_and_d11_saved,
                RegisterPairArm64::D12D13 => *d12_and_d13_saved,
                RegisterPairArm64::D14D15 => *d14_and_d15_saved,
            },
            _ => false,
        }
    }

    /// The register pairs that the function saved, in the order in which
    /// they lie in the frame, each with the offset of its first register.
    pub fn saved_pairs(&self) -> (pairs: Vec<(RegisterPairArm64, u16)>)
        ensures
            pairs@ == self.saved_pairs_among(9),
    {
        let mut pairs: Vec<(RegisterPairArm64, u16)> = Vec::new();
        let mut offset: u16 = 16;
        let mut place: usize = 0;
        while place < 9
            invariant
                place <= 9,
                pairs@ == self.saved_pairs_among(place as int),
                pairs@.len() <= place,
                offset == 16 + 16 * pairs@.len(),
            decreases 9 - place,
        {
            let pair = RegisterPairArm64::at(place);
            if self.is_saved(pair) {
                pairs.push((pair, offset));
                offset = offset + 16;
            }
            place = place + 1;
        }
        pairs
    }
}

} // verus!
