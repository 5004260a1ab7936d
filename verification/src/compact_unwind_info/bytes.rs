//! Little-endian numbers in the bytes of the metadata, and tables of them.
//!
//! Nothing here trusts an offset or a count: every read is checked against
//! the length of the bytes at hand.

use vstd::prelude::*;
use vstd::slice::slice_subrange;

verus! {

/// Whether `size` bytes from the offset `at` lie within `data`.
pub open spec fn in_bounds(data: Seq<u8>, at: int, size: int) -> bool {
    0 <= at && 0 <= size && at + size <= data.len()
}

/// The 16-bit number that the two bytes at `at` hold, the low byte first.
pub open spec fn u16_at(data: Seq<u8>, at: int) -> u16 {
    (data[at] + data[at + 1] * 0x100) as u16
}

/// The 32-bit number that the four bytes at `at` hold, the low byte first.
pub open spec fn u32_at(data: Seq<u8>, at: int) -> u32 {
    (data[at] + data[at + 1] * 0x100 + data[at + 2] * 0x1_0000 + data[at + 3] * 0x100_0000) as u32
}

/// The `count` 32-bit numbers that lie one after the other from the offset
/// `at`.
pub open spec fn words_at(data: Seq<u8>, at: int, count: int) -> Seq<u32> {
    Seq::new(count as nat, |i: int| u32_at(data, at + 4 * i))
}

/// Reads the 16-bit number at `at`, if it lies within the bytes.
pub fn read_u16(data: &[u8], at: u64) -> (number: Option<u16>)
    ensures
        in_bounds(data@, at as int, 2) ==> number == Some(u16_at(data@, at as int)),
        !in_bounds(data@, at as int, 2) ==> number is None,
{
    let len = data.len() as u64;
    if at > len || len - at < 2 {
        return None;
    }
    let i = at as usize;
    let low = data[i] as u16;
    let high = data[i + 1] as u16;
    Some(low + high * 0x100)
}

/// Reads the 32-bit number at `at`, if it lies within the bytes.
pub fn read_u32(data: &[u8], at: u64) -> (number: Option<u32>)
    ensures
        in_bounds(data@, at as int, 4) ==> number == Some(u32_at(data@, at as int)),
        !in_bounds(data@, at as int, 4) ==> number is None,
{
    let len = data.len() as u64;
    if at > len || len - at < 4 {
        return None;
    }
    let i = at as usize;
    let b0 = data[i] as u32;
    let b1 = data[i + 1] as u32;
    let b2 = data[i + 2] as u32;
    let b3 = data[i + 3] as u32;
    Some(b0 + b1 * 0x100 + b2 * 0x1_0000 + b3 * 0x100_0000)
}

/// A table of 32-bit numbers that lies in the bytes of the metadata. The
/// table borrows its bytes; no number is copied before it is asked for.
#[derive(Clone, Copy)]
pub struct WordTable<'a> {
    bytes: &'a [u8],
}

impl<'a> WordTable<'a> {
    #[verifier::type_invariant]
    spec fn whole_words(self) -> bool {
        self.bytes@.len() % 4 == 0
    }

    /// The numbers of the table.
    pub closed spec fn view(&self) -> Seq<u32> {
        words_at(self.bytes@, 0, self.bytes@.len() as int / 4)
    }

    /// The table of `count` numbers at the offset `at` of `data`, if all of
    /// it lies within `data`.
    pub fn read(data: &'a [u8], at: u64, count: u64) -> (table: Option<Self>)
        ensures
            in_bounds(data@, at as int, 4 * count) ==> (table matches Some(t) && t@ == words_at(
                data@,
                at as int,
                count as int,
            )),
            !in_bounds(data@, at as int, 4 * count) ==> table is None,
    {
        let len = data.len() as u64;
        if at > len || count > (len - at) / 4 {
            return None;
        }
        let size = 4 * count;
        let bytes = slice_subrange(data, at as usize, (at + size) as usize);
        let table = WordTable { bytes };
        assert(table@ =~= words_at(data@, at as int, count as int));
        Some(table)
    }

    /// How many numbers the table holds.
    pub fn len(&self) -> (len: usize)
        ensures
            len == self@.len(),
    {
        proof {
            use_type_invariant(self);
        }
        self.bytes.len() / 4
    }

    /// The number at the place `index`, if the table has that many.
    pub fn get(&self, index: usize) -> (number: Option<u32>)
        ensures
            index < self@.len() ==> number == Some(self@[index as int]),
            index >= self@.len() ==> number is None,
    {
        proof {
            use_type_invariant(self);
        }
        if index < self.bytes.len() / 4 {
            read_u32(self.bytes, 4 * (index as u64))
        } else {
            None
        }
    }
}

} // verus!
