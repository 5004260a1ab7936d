//! Opcode words built from their fields, and the laws that tie them to the
//! meaning of a word: a word that is built from given fields means an opcode
//! with exactly those fields.

use vstd::prelude::*;
use vstd::arithmetic::div_mod::lemma_fundamental_div_mod_converse;
use super::bitfield::field;
use super::bitfield::kind_of;
use super::opcodes::pair_flag;
use super::opcodes::register_slot;
use super::opcodes::OpcodeArm64;
use super::opcodes::OpcodeRegX86;
use super::opcodes::OpcodeRegX86_64;
use super::opcodes::OpcodeX86;
use super::opcodes::OpcodeX86_64;

verus! {

/// The opcode word with `flags` in its top four bits, `kind` in the four
/// bits below them and `payload` in its low 24 bits.
pub open spec fn opcode_word(flags: int, kind: int, payload: int) -> u32 {
    (flags * 0x1000_0000 + kind * 0x100_0000 + payload) as u32
}

/// The payload of a frame-based x86 or x86-64 opcode: the stack field in
/// bits 16 to 23, and the five saved-register slots in three bits each from
/// bit 12 down, the outermost first.
pub open spec fn x86_frame_based_payload(stack_field: int, slots: Seq<int>) -> int {
    stack_field * 0x1_0000 + slots[0] * 0x1000 + slots[1] * 0x200 + slots[2] * 0x40 + slots[3] * 8
        + slots[4]
}

/// The payload of a frameless x86 or x86-64 opcode: the stack field in bits
/// 16 to 23 above sixteen bits that describe the saved registers.
pub open spec fn x86_frameless_payload(stack_field: int, registers: int) -> int {
    stack_field * 0x1_0000 + registers
}

/// The payload of a frameless ARM64 opcode: the stack field in bits 12 to 23
/// above twelve bits that mean nothing.
pub open spec fn arm64_frameless_payload(stack_field: int, unused: int) -> int {
    stack_field * 0x1000 + unused
}

/// One bit of a payload: `scale` if the flag is set.
pub open spec fn flag_bit(set: bool, scale: int) -> int {
    if set {
        scale
    } else {
        0
    }
}

/// The payload of a frame-based ARM64 opcode: the flags of the nine register
/// pairs in bits 0 to 8, in the order of `pairs`, below fifteen bits that
/// mean nothing.
pub open spec fn arm64_frame_based_payload(pairs: Seq<bool>, unused: int) -> int {
    flag_bit(pairs[0], 1) + flag_bit(pairs[1], 2) + flag_bit(pairs[2], 4) + flag_bit(pairs[3], 8)
        + flag_bit(pairs[4], 0x10) + flag_bit(pairs[5], 0x20) + flag_bit(pairs[6], 0x40) + flag_bit(
        pairs[7],
        0x80,
    ) + flag_bit(pairs[8], 0x100) + unused * 0x200
}

/// A number that is written as a high part, a field and a low part holds
/// the field: `scale` is the weight of the field's lowest bit and `span` the
/// number of values of the field.
proof fn lemma_field_of_parts(high: int, value: int, low: int, scale: int, span: int)
    requires
        0 < scale,
        0 < span,
        0 <= low < scale,
        0 <= value < span,
    ensures
        ((high * span + value) * scale + low) / scale == high * span + value,
        (((high * span + value) * scale + low) / scale) % span == value,
{
    let upper = high * span + value;
    lemma_fundamental_div_mod_converse(upper * scale + low, scale, upper, low);
    lemma_fundamental_div_mod_converse(upper, span, high, value);
}

/// The number that an opcode word is.
proof fn lemma_word_value(flags: int, kind: int, payload: int)
    requires
        0 <= flags < 16,
        0 <= kind < 16,
        0 <= payload < 0x100_0000,
    ensures
        opcode_word(flags, kind, payload) as int == flags * 0x1000_0000 + kind * 0x100_0000
            + payload,
        kind_of(opcode_word(flags, kind, payload)) == kind,
        field(opcode_word(flags, kind, payload), 1, 0x100_0000) == payload,
{
}

/// The fields of a word with the payload of a frame-based x86 opcode.
proof fn lemma_x86_frame_based_fields(flags: int, kind: int, stack_field: int, slots: Seq<int>)
    requires
        0 <= flags < 16,
        0 <= kind < 16,
        0 <= stack_field < 0x100,
        slots.len() == 5,
        forall|slot: int| 0 <= slot < 5 ==> 0 <= #[trigger] slots[slot] < 8,
    ensures
        0 <= x86_frame_based_payload(stack_field, slots) < 0x100_0000,
        field(
            opcode_word(flags, kind, x86_frame_based_payload(stack_field, slots)),
            0x1_0000,
            0x100,
        ) == stack_field,
        forall|slot: int|
            0 <= slot < 5 ==> #[trigger] register_slot(
                opcode_word(flags, kind, x86_frame_based_payload(stack_field, slots)),
                slot,
            ) == slots[slot],
{
    let (s0, s1, s2, s3, s4) = (slots[0], slots[1], slots[2], slots[3], slots[4]);
    assert(0 <= s0 < 8 && 0 <= s1 < 8 && 0 <= s2 < 8 && 0 <= s3 < 8 && 0 <= s4 < 8);
    let payload = x86_frame_based_payload(stack_field, slots);
    let word = opcode_word(flags, kind, payload);
    lemma_word_value(flags, kind, payload);
    let top = flags * 16 + kind;
    lemma_field_of_parts(top, stack_field, s0 * 0x1000 + s1 * 0x200 + s2 * 0x40 + s3 * 8 + s4, 0x1_0000, 0x100);
    lemma_field_of_parts(top * 0x200 + stack_field * 2, s0, s1 * 0x200 + s2 * 0x40 + s3 * 8 + s4, 0x1000, 8);
    lemma_field_of_parts(top * 0x1000 + stack_field * 0x10 + s0, s1, s2 * 0x40 + s3 * 8 + s4, 0x200, 8);
    lemma_field_of_parts(top * 0x8000 + stack_field * 0x80 + s0 * 8 + s1, s2, s3 * 8 + s4, 0x40, 8);
    lemma_field_of_parts(top * 0x4_0000 + stack_field * 0x400 + s0 * 0x40 + s1 * 8 + s2, s3, s4, 8, 8);
    lemma_field_of_parts(top * 0x20_0000 + stack_field * 0x2000 + s0 * 0x200 + s1 * 0x40 + s2 * 8 + s3, s4, 0, 1, 8);
    assert(register_slot(word, 0) == s0);
    assert(register_slot(word, 1) == s1);
    assert(register_slot(word, 2) == s2);
    assert(register_slot(word, 3) == s3);
    assert(register_slot(word, 4) == s4);
}

/// The stack field of a word with the payload of a frameless x86 opcode.
proof fn lemma_x86_frameless_fields(flags: int, kind: int, stack_field: int, registers: int)
    requires
        0 <= flags < 16,
        0 <= kind < 16,
        0 <= stack_field < 0x100,
        0 <= registers < 0x1_0000,
    ensures
        0 <= x86_frameless_payload(stack_field, registers) < 0x100_0000,
        field(
            opcode_word(flags, kind, x86_frameless_payload(stack_field, registers)),
            0x1_0000,
            0x100,
        ) == stack_field,
{
    lemma_word_value(flags, kind, x86_frameless_payload(stack_field, registers));
    lemma_field_of_parts(flags * 16 + kind, stack_field, registers, 0x1_0000, 0x100);
}

/// The stack field of a word with the payload of a frameless ARM64 opcode.
proof fn lemma_arm64_frameless_fields(flags: int, kind: int, stack_field: int, unused: int)
    requires
        0 <= flags < 16,
        0 <= kind < 16,
        0 <= stack_field < 0x1000,
        0 <= unused < 0x1000,
    ensures
        0 <= arm64_frameless_payload(stack_field, unused) < 0x100_0000,
        field(
            opcode_word(flags, kind, arm64_frameless_payload(stack_field, unused)),
            0x1000,
            0x1000,
        ) == stack_field,
{
    lemma_word_value(flags, kind, arm64_frameless_payload(stack_field, unused));
    lemma_field_of_parts(flags * 16 + kind, stack_field, unused, 0x1000, 0x1000);
}

/// The bits of a number that is written as nine bits below a high part.
proof fn lemma_nine_bits(
    high: int,
    b8: int,
    b7: int,
    b6: int,
    b5: int,
    b4: int,
    b3: int,
    b2: int,
    b1: int,
    b0: int,
)
    requires
        0 <= b0 < 2,
        0 <= b1 < 2,
        0 <= b2 < 2,
        0 <= b3 < 2,
        0 <= b4 < 2,
        0 <= b5 < 2,
        0 <= b6 < 2,
        0 <= b7 < 2,
        0 <= b8 < 2,
    ensures
        ({
            let n = high * 0x200 + b8 * 0x100 + b7 * 0x80 + b6 * 0x40 + b5 * 0x20 + b4 * 0x10 + b3
                * 8 + b2 * 4 + b1 * 2 + b0;
            &&& (n / 1) % 2 == b0
            &&& (n / 2) % 2 == b1
            &&& (n / 4) % 2 == b2
            &&& (n / 8) % 2 == b3
            &&& (n / 0x10) % 2 == b4
            &&& (n / 0x20) % 2 == b5
            &&& (n / 0x40) % 2 == b6
            &&& (n / 0x80) % 2 == b7
            &&& (n / 0x100) % 2 == b8
        }),
{
    lemma_field_of_parts(high * 0x100 + b8 * 0x80 + b7 * 0x40 + b6 * 0x20 + b5 * 0x10 + b4 * 8 + b3 * 4 + b2 * 2 + b1, b0, 0, 1, 2);
    lemma_field_of_parts(high * 0x80 + b8 * 0x40 + b7 * 0x20 + b6 * 0x10 + b5 * 8 + b4 * 4 + b3 * 2 + b2, b1, b0, 2, 2);
    lemma_field_of_parts(high * 0x40 + b8 * 0x20 + b7 * 0x10 + b6 * 8 + b5 * 4 + b4 * 2 + b3, b2, b1 * 2 + b0, 4, 2);
    lemma_field_of_parts(high * 0x20 + b8 * 0x10 + b7 * 8 + b6 * 4 + b5 * 2 + b4, b3, b2 * 4 + b1 * 2 + b0, 8, 2);
    lemma_field_of_parts(high * 0x10 + b8 * 8 + b7 * 4 + b6 * 2 + b5, b4, b3 * 8 + b2 * 4 + b1 * 2 + b0, 0x10, 2);
    lemma_field_of_parts(high * 8 + b8 * 4 + b7 * 2 + b6, b5, b4 * 0x10 + b3 * 8 + b2 * 4 + b1 * 2 + b0, 0x20, 2);
    lemma_field_of_parts(high * 4 + b8 * 2 + b7, b6, b5 * 0x20 + b4 * 0x10 + b3 * 8 + b2 * 4 + b1 * 2 + b0, 0x40, 2);
    lemma_field_of_parts(high * 2 + b8, b7, b6 * 0x40 + b5 * 0x20 + b4 * 0x10 + b3 * 8 + b2 * 4 + b1 * 2 + b0, 0x80, 2);
    lemma_field_of_parts(high, b8, b7 * 0x80 + b6 * 0x40 + b5 * 0x20 + b4 * 0x10 + b3 * 8 + b2 * 4 + b1 * 2 + b0, 0x100, 2);
}

/// The flags of a word with the payload of a frame-based ARM64 opcode.
proof fn lemma_arm64_frame_based_fields(flags: int, kind: int, pairs: Seq<bool>, unused: int)
    requires
        0 <= flags < 16,
        0 <= kind < 16,
        pairs.len() == 9,
        0 <= unused < 0x8000,
    ensures
        0 <= arm64_frame_based_payload(pairs, unused) < 0x100_0000,
        forall|bit: int|
            0 <= bit < 9 ==> #[trigger] pair_flag(
                opcode_word(flags, kind, arm64_frame_based_payload(pairs, unused)),
                bit,
            ) == pairs[bit],
{
    let payload = arm64_frame_based_payload(pairs, unused);
    let b0 = flag_bit(pairs[0], 1);
    let b1 = flag_bit(pairs[1], 1);
    let b2 = flag_bit(pairs[2], 1);
    let b3 = flag_bit(pairs[3], 1);
    let b4 = flag_bit(pairs[4], 1);
    let b5 = flag_bit(pairs[5], 1);
    let b6 = flag_bit(pairs[6], 1);
    let b7 = flag_bit(pairs[7], 1);
    let b8 = flag_bit(pairs[8], 1);
    assert(flag_bit(pairs[1], 2) == b1 * 2);
    assert(flag_bit(pairs[2], 4) == b2 * 4);
    assert(flag_bit(pairs[3], 8) == b3 * 8);
    assert(flag_bit(pairs[4], 0x10) == b4 * 0x10);
    assert(flag_bit(pairs[5], 0x20) == b5 * 0x20);
    assert(flag_bit(pairs[6], 0x40) == b6 * 0x40);
    assert(flag_bit(pairs[7], 0x80) == b7 * 0x80);
    assert(flag_bit(pairs[8], 0x100) == b8 * 0x100);
    assert(payload == unused * 0x200 + b8 * 0x100 + b7 * 0x80 + b6 * 0x40 + b5 * 0x20 + b4 * 0x10
        + b3 * 8 + b2 * 4 + b1 * 2 + b0);
    lemma_word_value(flags, kind, payload);
    let high = (flags * 16 + kind) * 0x8000 + unused;
    let word = opcode_word(flags, kind, payload);
    assert(word as int == high * 0x200 + b8 * 0x100 + b7 * 0x80 + b6 * 0x40 + b5 * 0x20 + b4 * 0x10
        + b3 * 8 + b2 * 4 + b1 * 2 + b0);
    lemma_nine_bits(high, b8, b7, b6, b5, b4, b3, b2, b1, b0);
    assert(pair_flag(word, 0) == pairs[0]);
    assert(pair_flag(word, 1) == pairs[1]);
    assert(pair_flag(word, 2) == pairs[2]);
    assert(pair_flag(word, 3) == pairs[3]);
    assert(pair_flag(word, 4) == pairs[4]);
    assert(pair_flag(word, 5) == pairs[5]);
    assert(pair_flag(word, 6) == pairs[6]);
    assert(pair_flag(word, 7) == pairs[7]);
    assert(pair_flag(word, 8) == pairs[8]);
}

/// A word holds the kind and the payload from which it is built.
pub proof fn law_word_holds_kind_and_payload(flags: int, kind: int, payload: int)
    requires
        0 <= flags < 16,
        0 <= kind < 16,
        0 <= payload < 0x100_0000,
    ensures
        kind_of(opcode_word(flags, kind, payload)) == kind,
        field(opcode_word(flags, kind, payload), 1, 0x100_0000) == payload,
{
    lemma_word_value(flags, kind, payload);
}

/// On x86, a word built from the fields of an opcode of any kind means the
/// opcode with those fields, and a word of any other kind means nothing.
pub proof fn law_x86_round_trip(
    flags: int,
    payload: int,
    stack_field: int,
    slots: Seq<int>,
    registers: int,
)
    requires
        0 <= flags < 16,
        0 <= payload < 0x100_0000,
        0 <= stack_field < 0x100,
        slots.len() == 5,
        forall|slot: int| 0 <= slot < 5 ==> 0 <= #[trigger] slots[slot] < 8,
        0 <= registers < 0x1_0000,
    ensures
        OpcodeX86::meaning(opcode_word(flags, 0, payload)) == Some(OpcodeX86::Null),
        OpcodeX86::meaning(opcode_word(flags, 1, x86_frame_based_payload(stack_field, slots)))
            == Some(
            OpcodeX86::FrameBased {
                stack_offset_in_bytes: (4 * stack_field) as u16,
                saved_regs: [
                    OpcodeRegX86::named(slots[0]),
                    OpcodeRegX86::named(slots[1]),
                    OpcodeRegX86::named(slots[2]),
                    OpcodeRegX86::named(slots[3]),
                    OpcodeRegX86::named(slots[4]),
                ],
            },
        ),
        OpcodeX86::meaning(opcode_word(flags, 2, x86_frameless_payload(stack_field, registers)))
            == Some(
            OpcodeX86::FramelessImmediate {
                stack_size_in_bytes: (4 * stack_field) as u16,
                saved_regs: [None, None, None, None, None, None],
            },
        ),
        OpcodeX86::meaning(opcode_word(flags, 3, payload)) == Some(OpcodeX86::FramelessIndirect),
        OpcodeX86::meaning(opcode_word(flags, 4, payload)) == Some(
            OpcodeX86::Dwarf { eh_frame_fde: payload as u32 },
        ),
        forall|kind: int|
            5 <= kind < 16 ==> #[trigger] OpcodeX86::meaning(opcode_word(flags, kind, payload))
                is None,
{
    lemma_word_value(flags, 0, payload);
    lemma_word_value(flags, 3, payload);
    lemma_word_value(flags, 4, payload);
    lemma_x86_frame_based_fields(flags, 1, stack_field, slots);
    lemma_word_value(flags, 1, x86_frame_based_payload(stack_field, slots));
    lemma_x86_frameless_fields(flags, 2, stack_field, registers);
    lemma_word_value(flags, 2, x86_frameless_payload(stack_field, registers));
    let word = opcode_word(flags, 1, x86_frame_based_payload(stack_field, slots));
    assert(register_slot(word, 0) == slots[0]);
    assert(register_slot(word, 1) == slots[1]);
    assert(register_slot(word, 2) == slots[2]);
    assert(register_slot(word, 3) == slots[3]);
    assert(register_slot(word, 4) == slots[4]);
    assert forall|kind: int| 5 <= kind < 16 implies #[trigger] OpcodeX86::meaning(
        opcode_word(flags, kind, payload),
    ) is None by {
        lemma_word_value(flags, kind, payload);
    }
}

/// On x86-64, a word built from the fields of an opcode of any kind means
/// the opcode with those fields, and a word of any other kind means nothing.
pub proof fn law_x86_64_round_trip(
    flags: int,
    payload: int,
    stack_field: int,
    slots: Seq<int>,
    registers: int,
)
    requires
        0 <= flags < 16,
        0 <= payload < 0x100_0000,
        0 <= stack_field < 0x100,
        slots.len() == 5,
        forall|slot: int| 0 <= slot < 5 ==> 0 <= #[trigger] slots[slot] < 8,
        0 <= registers < 0x1_0000,
    ensures
        OpcodeX86_64::meaning(opcode_word(flags, 0, payload)) == Some(OpcodeX86_64::Null),
        OpcodeX86_64::meaning(opcode_word(flags, 1, x86_frame_based_payload(stack_field, slots)))
            == Some(
            OpcodeX86_64::FrameBased {
                stack_offset_in_bytes: (8 * stack_field) as u16,
                saved_regs: [
                    OpcodeRegX86_64::named(slots[0]),
                    OpcodeRegX86_64::named(slots[1]),
                    OpcodeRegX86_64::named(slots[2]),
                    OpcodeRegX86_64::named(slots[3]),
                    OpcodeRegX86_64::named(slots[4]),
                ],
            },
        ),
        OpcodeX86_64::meaning(
            opcode_word(flags, 2, x86_frameless_payload(stack_field, registers)),
        ) == Some(
            OpcodeX86_64::FramelessImmediate {
                stack_size_in_bytes: (8 * stack_field) as u16,
                saved_regs: [None, None, None, None, None, None],
            },
        ),
        OpcodeX86_64::meaning(opcode_word(flags, 3, payload)) == Some(
            OpcodeX86_64::FramelessIndirect,
        ),
        OpcodeX86_64::meaning(opcode_word(flags, 4, payload)) == Some(
            OpcodeX86_64::Dwarf { eh_frame_fde: payload as u32 },
        ),
        forall|kind: int|
            5 <= kind < 16 ==> #[trigger] OpcodeX86_64::meaning(opcode_word(flags, kind, payload))
                is None,
{
    lemma_word_value(flags, 0, payload);
    lemma_word_value(flags, 3, payload);
    lemma_word_value(flags, 4, payload);
    lemma_x86_frame_based_fields(flags, 1, stack_field, slots);
    lemma_word_value(flags, 1, x86_frame_based_payload(stack_field, slots));
    lemma_x86_frameless_fields(flags, 2, stack_field, registers);
    lemma_word_value(flags, 2, x86_frameless_payload(stack_field, registers));
    let word = opcode_word(flags, 1, x86_frame_based_payload(stack_field, slots));
    assert(register_slot(word, 0) == slots[0]);
    assert(register_slot(word, 1) == slots[1]);
    assert(register_slot(word, 2) == slots[2]);
    assert(register_slot(word, 3) == slots[3]);
    assert(register_slot(word, 4) == slots[4]);
    assert forall|kind: int| 5 <= kind < 16 implies #[trigger] OpcodeX86_64::meaning(
        opcode_word(flags, kind, payload),
    ) is None by {
        lemma_word_value(flags, kind, payload);
    }
}

/// On ARM64, a word built from the fields of an opcode of any kind means the
/// opcode with those fields, and a word of any other kind means nothing.
pub proof fn law_arm64_round_trip(
    flags: int,
    payload: int,
    stack_field: int,
    pairs: Seq<bool>,
    unused: int,
)
    requires
        0 <= flags < 16,
        0 <= payload < 0x100_0000,
        0 <= stack_field < 0x1000,
        pairs.len() == 9,
        0 <= unused < 0x1000,
    ensures
        OpcodeArm64::meaning(opcode_word(flags, 0, payload)) == Some(OpcodeArm64::Null),
        OpcodeArm64::meaning(opcode_word(flags, 2, arm64_frameless_payload(stack_field, unused)))
            == Some(OpcodeArm64::Frameless { stack_size_in_bytes: (16 * stack_field) as u16 }),
        OpcodeArm64::meaning(opcode_word(flags, 3, payload)) == Some(
            OpcodeArm64::Dwarf { eh_frame_fde: payload as u32 },
        ),
        OpcodeArm64::meaning(opcode_word(flags, 4, arm64_frame_based_payload(pairs, unused)))
            == Some(
            OpcodeArm64::FrameBased {
                d14_and_d15_saved: pairs[8],
                d12_and_d13_saved: pairs[7],
                d10_and_d11_saved: pairs[6],
                d8_and_d9_saved: pairs[5],
                x27_and_x28_saved: pairs[4],
                x25_and_x26_saved: pairs[3],
                x23_and_x24_saved: pairs[2],
                x21_and_x22_saved: pairs[1],
                x19_and_x20_saved: pairs[0],
            },
        ),
        OpcodeArm64::meaning(opcode_word(flags, 1, payload)) is None,
        forall|kind: int|
            5 <= kind < 16 ==> #[trigger] OpcodeArm64::meaning(opcode_word(flags, kind, payload))
                is None,
{
    lemma_word_value(flags, 0, payload);
    lemma_word_value(flags, 1, payload);
    lemma_word_value(flags, 3, payload);
    lemma_arm64_frameless_fields(flags, 2, stack_field, unused);
    lemma_word_value(flags, 2, arm64_frameless_payload(stack_field, unused));
    lemma_arm64_frame_based_fields(flags, 4, pairs, unused);
    lemma_word_value(flags, 4, arm64_frame_based_payload(pairs, unused));
    let word = opcode_word(flags, 4, arm64_frame_based_payload(pairs, unused));
    assert(pair_flag(word, 0) == pairs[0]);
    assert(pair_flag(word, 1) == pairs[1]);
    assert(pair_flag(word, 2) == pairs[2]);
    assert(pair_flag(word, 3) == pairs[3]);
    assert(pair_flag(word, 4) == pairs[4]);
    assert(pair_flag(word, 5) == pairs[5]);
    assert(pair_flag(word, 6) == pairs[6]);
    assert(pair_flag(word, 7) == pairs[7]);
    assert(pair_flag(word, 8) == pairs[8]);
    assert forall|kind: int| 5 <= kind < 16 implies #[trigger] OpcodeArm64::meaning(
        opcode_word(flags, kind, payload),
    ) is None by {
        lemma_word_value(flags, kind, payload);
    }
}

} // verus!
