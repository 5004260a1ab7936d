//! The 32-bit opcode word and the fields packed into it.

use vstd::prelude::*;

verus! {

/// The bits `low .. low + width` of `word`, as a number.
///
/// `scale` is two to the power `low` and `span` is two to the power `width`.
pub open spec fn field(word: u32, scale: int, span: int) -> int {
    (word as int / scale) % span
}

/// The kind tag of an opcode word: bits 24 to 27.
pub open spec fn kind_of(word: u32) -> int {
    field(word, 0x100_0000, 0x10)
}

/// One opcode word of the unwind metadata.
pub struct OpcodeBitfield(pub u32);

impl OpcodeBitfield {
    pub fn new(value: u32) -> (bitfield: Self)
        ensures
            bitfield.0 == value,
    {
        OpcodeBitfield(value)
    }

    /// The architecture-specific kind of the opcode, which says how the low
    /// 24 bits are to be read.
    pub fn kind(&self) -> (kind: u8)
        ensures
            kind == kind_of(self.0),
    {
        let word: u32 = self.0;
        assert((word >> 24) & 0xf == (word / 0x100_0000) % 0x10) by (bit_vector);
        ((word >> 24) & 0xf) as u8
    }
}

} // verus!
