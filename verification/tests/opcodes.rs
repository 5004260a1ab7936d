use framehop::compact_unwind_info::bitfield::OpcodeBitfield;
use framehop::compact_unwind_info::opcodes::OpcodeArm64;
use framehop::compact_unwind_info::opcodes::OpcodeRegX86;
use framehop::compact_unwind_info::opcodes::OpcodeRegX86_64;
use framehop::compact_unwind_info::opcodes::OpcodeX86;
use framehop::compact_unwind_info::opcodes::OpcodeX86_64;
use framehop::compact_unwind_info::opcodes::RegisterPairArm64;

fn word(flags: u32, kind: u32, payload: u32) -> u32 {
    (flags << 28) | (kind << 24) | payload
}

#[test]
fn kind_is_read_from_bits_24_to_27() {
    assert_eq!(OpcodeBitfield::new(0).kind(), 0);
    assert_eq!(OpcodeBitfield::new(0x0400_0000).kind(), 4);
    assert_eq!(OpcodeBitfield::new(0xf2ff_ffff).kind(), 2);
    assert_eq!(OpcodeBitfield::new(0x8f00_0000).kind(), 15);
}

#[test]
fn x86_registers_are_named_by_number() {
    assert_eq!(OpcodeRegX86::parse(0), None);
    assert_eq!(OpcodeRegX86::parse(1), Some(OpcodeRegX86::Ebx));
    assert_eq!(OpcodeRegX86::parse(2), Some(OpcodeRegX86::Ecx));
    assert_eq!(OpcodeRegX86::parse(3), Some(OpcodeRegX86::Edx));
    assert_eq!(OpcodeRegX86::parse(4), Some(OpcodeRegX86::Edi));
    assert_eq!(OpcodeRegX86::parse(5), Some(OpcodeRegX86::Esi));
    assert_eq!(OpcodeRegX86::parse(6), Some(OpcodeRegX86::Ebp));
    assert_eq!(OpcodeRegX86::parse(7), None);
    assert_eq!(OpcodeRegX86::parse(u32::MAX), None);
}

#[test]
fn x86_64_registers_are_named_by_number() {
    assert_eq!(OpcodeRegX86_64::parse(0), None);
    assert_eq!(OpcodeRegX86_64::parse(1), Some(OpcodeRegX86_64::Rbx));
    assert_eq!(OpcodeRegX86_64::parse(2), Some(OpcodeRegX86_64::R12));
    assert_eq!(OpcodeRegX86_64::parse(3), Some(OpcodeRegX86_64::R13));
    assert_eq!(OpcodeRegX86_64::parse(4), Some(OpcodeRegX86_64::R14));
    assert_eq!(OpcodeRegX86_64::parse(5), Some(OpcodeRegX86_64::R15));
    assert_eq!(OpcodeRegX86_64::parse(6), Some(OpcodeRegX86_64::Rbp));
    assert_eq!(OpcodeRegX86_64::parse(7), None);
}

#[test]
fn x86_64_frame_based_round_trip() {
    let payload = (5 << 16) | (6 << 12) | (1 << 9) | (0 << 6) | (7 << 3) | 3;
    let parsed = OpcodeX86_64::parse(&OpcodeBitfield::new(word(0x8, 1, payload)));
    assert_eq!(
        parsed,
        Some(OpcodeX86_64::FrameBased {
            stack_offset_in_bytes: 40,
            saved_regs: [
                Some(OpcodeRegX86_64::Rbp),
                Some(OpcodeRegX86_64::Rbx),
                None,
                None,
                Some(OpcodeRegX86_64::R13),
            ],
        })
    );
}

#[test]
fn x86_64_other_kinds_round_trip() {
    assert_eq!(OpcodeX86_64::parse(&OpcodeBitfield::new(word(0, 0, 0x1234))), Some(OpcodeX86_64::Null));
    assert_eq!(
        OpcodeX86_64::parse(&OpcodeBitfield::new(word(3, 2, (255 << 16) | 0xffff))),
        Some(OpcodeX86_64::FramelessImmediate { stack_size_in_bytes: 2040, saved_regs: [None; 6] })
    );
    assert_eq!(
        OpcodeX86_64::parse(&OpcodeBitfield::new(word(0, 3, 0xabcdef))),
        Some(OpcodeX86_64::FramelessIndirect)
    );
    assert_eq!(
        OpcodeX86_64::parse(&OpcodeBitfield::new(word(0xf, 4, 0xabcdef))),
        Some(OpcodeX86_64::Dwarf { eh_frame_fde: 0xabcdef })
    );
    assert_eq!(OpcodeX86_64::parse(&OpcodeBitfield::new(word(0, 5, 0))), None);
    assert_eq!(OpcodeX86_64::parse(&OpcodeBitfield::new(word(0, 15, 0))), None);
}

#[test]
fn x86_round_trip() {
    assert_eq!(OpcodeX86::parse(&OpcodeBitfield::new(word(1, 0, 7))), Some(OpcodeX86::Null));
    let payload = (5 << 16) | (1 << 12) | (2 << 9) | (3 << 6) | (4 << 3) | 5;
    assert_eq!(
        OpcodeX86::parse(&OpcodeBitfield::new(word(0, 1, payload))),
        Some(OpcodeX86::FrameBased {
            stack_offset_in_bytes: 20,
            saved_regs: [
                Some(OpcodeRegX86::Ebx),
                Some(OpcodeRegX86::Ecx),
                Some(OpcodeRegX86::Edx),
                Some(OpcodeRegX86::Edi),
                Some(OpcodeRegX86::Esi),
            ],
        })
    );
    assert_eq!(
        OpcodeX86::parse(&OpcodeBitfield::new(word(0, 2, 3 << 16))),
        Some(OpcodeX86::FramelessImmediate { stack_size_in_bytes: 12, saved_regs: [None; 6] })
    );
    assert_eq!(OpcodeX86::parse(&OpcodeBitfield::new(word(0, 3, 0))), Some(OpcodeX86::FramelessIndirect));
    assert_eq!(
        OpcodeX86::parse(&OpcodeBitfield::new(word(0, 4, 0x10))),
        Some(OpcodeX86::Dwarf { eh_frame_fde: 0x10 })
    );
    assert_eq!(OpcodeX86::parse(&OpcodeBitfield::new(word(0, 9, 0))), None);
}

#[test]
fn arm64_frameless_round_trip() {
    assert_eq!(
        OpcodeArm64::parse(&OpcodeBitfield::new(word(0, 2, 2 << 12))),
        Some(OpcodeArm64::Frameless { stack_size_in_bytes: 32 })
    );
    assert_eq!(
        OpcodeArm64::parse(&OpcodeBitfield::new(word(0, 2, (4095 << 12) | 0xfff))),
        Some(OpcodeArm64::Frameless { stack_size_in_bytes: 65520 })
    );
}

#[test]
fn arm64_other_kinds_round_trip() {
    assert_eq!(OpcodeArm64::parse(&OpcodeBitfield::new(word(0, 0, 0))), Some(OpcodeArm64::Null));
    assert_eq!(OpcodeArm64::parse(&OpcodeBitfield::new(word(0, 1, 0))), None);
    assert_eq!(
        OpcodeArm64::parse(&OpcodeBitfield::new(word(0, 3, 0x77))),
        Some(OpcodeArm64::Dwarf { eh_frame_fde: 0x77 })
    );
    assert_eq!(
        OpcodeArm64::parse(&OpcodeBitfield::new(word(0, 4, 0b1_0100_0011))),
        Some(OpcodeArm64::FrameBased {
            d14_and_d15_saved: true,
            d12_and_d13_saved: false,
            d10_and_d11_saved: true,
            d8_and_d9_saved: false,
            x27_and_x28_saved: false,
            x25_and_x26_saved: false,
            x23_and_x24_saved: false,
            x21_and_x22_saved: true,
            x19_and_x20_saved: true,
        })
    );
    assert_eq!(OpcodeArm64::parse(&OpcodeBitfield::new(word(0, 5, 0))), None);
}

#[test]
fn arm64_saved_pairs_lie_in_frame_order() {
    let opcode = OpcodeArm64::parse(&OpcodeBitfield::new(word(0, 4, 0b1_0100_0011))).unwrap();
    assert_eq!(
        opcode.saved_pairs(),
        vec![
            (RegisterPairArm64::X19X20, 16),
            (RegisterPairArm64::X21X22, 32),
            (RegisterPairArm64::D10D11, 48),
            (RegisterPairArm64::D14D15, 64),
        ]
    );
    let all = OpcodeArm64::parse(&OpcodeBitfield::new(word(0, 4, 0x1ff))).unwrap();
    let pairs = all.saved_pairs();
    assert_eq!(pairs.len(), 9);
    assert_eq!(pairs[0], (RegisterPairArm64::X19X20, 16));
    assert_eq!(pairs[5], (RegisterPairArm64::D8D9, 96));
    assert_eq!(pairs[8], (RegisterPairArm64::D14D15, 144));
    assert_eq!(OpcodeArm64::Null.saved_pairs(), vec![]);
    assert_eq!(OpcodeArm64::Frameless { stack_size_in_bytes: 16 }.saved_pairs(), vec![]);
}
