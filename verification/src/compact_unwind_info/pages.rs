//! The pages of the metadata: regular pages, which hold an opcode for each
//! entry, and compressed pages, whose entries point into tables of opcodes.

use vstd::prelude::*;
use super::bitfield::field;
use super::bytes::in_bounds;
use super::bytes::read_u16;
use super::bytes::read_u32;
use super::bytes::u16_at;
use super::bytes::u32_at;
use super::bytes::words_at;
use super::bytes::WordTable;
use super::error::DecodeError;

verus! {

/// The kind of the last page, whose first address ends the covered range.
pub const PAGE_KIND_SENTINEL: u32 = 1;

pub const PAGE_KIND_REGULAR: u32 = 2;

pub const PAGE_KIND_COMPRESSED: u32 = 3;

/// The head of a regular page. The offset of the entries counts from the
/// start of the page.
#[derive(Clone, Copy, Debug, PartialEq, Eq)]
pub struct RegularPage {
    pub kind: u32,
    pub entries_offset: u16,
    pub entries_len: u16,
}

/// One entry of a regular page.
#[derive(Clone, Copy, Debug, PartialEq, Eq)]
pub struct RegularEntry {
    pub instruction_address: u32,
    pub opcode: u32,
}

/// The entry that the eight bytes at `at` hold.
pub open spec fn regular_entry_at(data: Seq<u8>, at: int) -> RegularEntry {
    RegularEntry { instruction_address: u32_at(data, at), opcode: u32_at(data, at + 4) }
}

/// The `count` entries that lie one after the other from the offset `at`.
pub open spec fn regular_entries_at(data: Seq<u8>, at: int, count: int) -> Seq<RegularEntry> {
    Seq::new(count as nat, |i: int| regular_entry_at(data, at + 8 * i))
}

impl RegularPage {
    /// The head that the eight bytes at `at` hold.
    pub open spec fn at(data: Seq<u8>, at: int) -> Self {
        RegularPage {
            kind: u32_at(data, at),
            entries_offset: u16_at(data, at + 4),
            entries_len: u16_at(data, at + 6),
        }
    }

    /// Where the entries lie, for a page at the offset `page_offset`.
    pub open spec fn entries_start(self, page_offset: u32) -> int {
        page_offset + self.entries_offset
    }

    /// Reads the head of the page at the offset `page_offset`, if it lies
    /// within `data`.
    pub fn parse(data: &[u8], page_offset: u64) -> (result: Result<Self, DecodeError>)
        ensures
            in_bounds(data@, page_offset as int, 8) ==> result == Ok::<Self, DecodeError>(
                Self::at(data@, page_offset as int),
            ),
            !in_bounds(data@, page_offset as int, 8) ==> result == Err::<Self, DecodeError>(
                DecodeError::RegularPage,
            ),
    {
        let len = data.len() as u64;
        if page_offset > len || len - page_offset < 8 {
            return Err(DecodeError::RegularPage);
        }
        match (
            read_u32(data, page_offset),
            read_u16(data, page_offset + 4),
            read_u16(data, page_offset + 6),
        ) {
            (Some(kind), Some(entries_offset), Some(entries_len)) => Ok(
                RegularPage { kind, entries_offset, entries_len },
            ),
            _ => Err(DecodeError::RegularPage),
        }
    }

    /// The entries of the page at the offset `page_offset`, if they lie
    /// within `data`.
    pub fn entries<'a>(&self, data: &'a [u8], page_offset: u32) -> (result: Result<
        RegularEntryTable<'a>,
        DecodeError,
    >)
        ensures
            in_bounds(data@, self.entries_start(page_offset), 8 * self.entries_len) ==> (
            result matches Ok(table) && table@ == regular_entries_at(
                data@,
                self.entries_start(page_offset),
                self.entries_len as int,
            )),
            !in_bounds(data@, self.entries_start(page_offset), 8 * self.entries_len)
                ==> result matches Err(DecodeError::RegularPageEntries),
    {
        let at = page_offset as u64 + self.entries_offset as u64;
        match WordTable::read(data, at, 2 * (self.entries_len as u64)) {
            Some(words) => {
                let table = RegularEntryTable { words };
                assert(table@ =~= regular_entries_at(
                    data@,
                    self.entries_start(page_offset),
                    self.entries_len as int,
                ));
                Ok(table)
            },
            None => Err(DecodeError::RegularPageEntries),
        }
    }
}

/// The entries of a regular page as they lie in the bytes of the metadata.
#[derive(Clone, Copy)]
pub struct RegularEntryTable<'a> {
    words: WordTable<'a>,
}

impl<'a> RegularEntryTable<'a> {
    #[verifier::type_invariant]
    spec fn whole_entries(self) -> bool {
        self.words@.len() % 2 == 0
    }

    /// The entries of the table.
    pub closed spec fn view(&self) -> Seq<RegularEntry> {
        Seq::new(
            self.words@.len() / 2,
            |i: int|
                RegularEntry {
                    instruction_address: self.words@[2 * i],
                    opcode: self.words@[2 * i + 1],
                },
        )
    }

    /// How many entries the table holds.
    pub fn len(&self) -> (len: usize)
        ensures
            len == self@.len(),
    {
        proof {
            use_type_invariant(self);
        }
        self.words.len() / 2
    }

    /// The entry at the place `index`, if the table has that many.
    pub fn get(&self, index: usize) -> (entry: Option<RegularEntry>)
        ensures
            index < self@.len() ==> entry == Some(self@[index as int]),
            index >= self@.len() ==> entry is None,
    {
        proof {
            use_type_invariant(self);
        }
        if index >= self.words.len() / 2 {
            return None;
        }
        match (self.words.get(2 * index), self.words.get(2 * index + 1)) {
            (Some(instruction_address), Some(opcode)) => Some(
                RegularEntry { instruction_address, opcode },
            ),
            _ => None,
        }
    }
}

/// The head of a compressed page. The offsets count from the start of the
/// page.
#[derive(Clone, Copy, Debug, PartialEq, Eq)]
pub struct CompressedPage {
    pub kind: u32,
    pub entries_offset: u16,
    pub entries_len: u16,
    pub local_opcodes_offset: u16,
    pub local_opcodes_len: u16,
}

impl CompressedPage {
    /// The head that the twelve bytes at `at` hold.
    pub open spec fn at(data: Seq<u8>, at: int) -> Self {
        CompressedPage {
            kind: u32_at(data, at),
            entries_offset: u16_at(data, at + 4),
            entries_len: u16_at(data, at + 6),
            local_opcodes_offset: u16_at(data, at + 8),
            local_opcodes_len: u16_at(data, at + 10),
        }
    }

    /// Where the entries lie, for a page at the offset `page_offset`.
    pub open spec fn entries_start(self, page_offset: u32) -> int {
        page_offset + self.entries_offset
    }

    /// Where the local opcodes lie, for a page at the offset `page_offset`.
    pub open spec fn local_opcodes_start(self, page_offset: u32) -> int {
        page_offset + self.local_opcodes_offset
    }

    /// Reads the head of the page at the offset `page_offset`, if it lies
    /// within `data`.
    pub fn parse(data: &[u8], page_offset: u64) -> (result: Result<Self, DecodeError>)
        ensures
            in_bounds(data@, page_offset as int, 12) ==> result == Ok::<Self, DecodeError>(
                Self::at(data@, page_offset as int),
            ),
            !in_bounds(data@, page_offset as int, 12) ==> result == Err::<Self, DecodeError>(
                DecodeError::CompressedPage,
            ),
    {
        let len = data.len() as u64;
        if page_offset > len || len - page_offset < 12 {
            return Err(DecodeError::CompressedPage);
        }
        match (
            read_u32(data, page_offset),
            read_u16(data, page_offset + 4),
            read_u16(data, page_offset + 6),
            read_u16(data, page_offset + 8),
            read_u16(data, page_offset + 10),
        ) {
            (
                Some(kind),
                Some(entries_offset),
                Some(entries_len),
                Some(local_opcodes_offset),
                Some(local_opcodes_len),
            ) => Ok(
                CompressedPage {
                    kind,
                    entries_offset,
                    entries_len,
                    local_opcodes_offset,
                    local_opcodes_len,
                },
            ),
            _ => Err(DecodeError::CompressedPage),
        }
    }

    /// The entries of the page at the offset `page_offset`, if they lie
    /// within `data`. Each is one word: see `CompressedEntryBitfield`.
    pub fn entries<'a>(&self, data: &'a [u8], page_offset: u32) -> (result: Result<
        WordTable<'a>,
        DecodeError,
    >)
        ensures
            in_bounds(data@, self.entries_start(page_offset), 4 * self.entries_len) ==> (
            result matches Ok(table) && table@ == words_at(
                data@,
                self.entries_start(page_offset),
                self.entries_len as int,
            )),
            !in_bounds(data@, self.entries_start(page_offset), 4 * self.entries_len)
                ==> result matches Err(DecodeError::CompressedPageEntries),
    {
        let at = page_offset as u64 + self.entries_offset as u64;
        match WordTable::read(data, at, self.entries_len as u64) {
            Some(table) => Ok(table),
            None => Err(DecodeError::CompressedPageEntries),
        }
    }

    /// The local opcodes of the page at the offset `page_offset`, if they
    /// lie within `data`.
    pub fn local_opcodes<'a>(&self, data: &'a [u8], page_offset: u32) -> (result: Result<
        WordTable<'a>,
        DecodeError,
    >)
        ensures
            in_bounds(data@, self.local_opcodes_start(page_offset), 4 * self.local_opcodes_len)
                ==> (result matches Ok(table) && table@ == words_at(
                data@,
                self.local_opcodes_start(page_offset),
                self.local_opcodes_len as int,
            )),
            !in_bounds(data@, self.local_opcodes_start(page_offset), 4 * self.local_opcodes_len)
                ==> result matches Err(DecodeError::LocalOpcodes),
    {
        let at = page_offset as u64 + self.local_opcodes_offset as u64;
        match WordTable::read(data, at, self.local_opcodes_len as u64) {
            Some(table) => Ok(table),
            None => Err(DecodeError::LocalOpcodes),
        }
    }
}

/// The opcode of an entry with the opcode index `index`: an index below the
/// number of global opcodes points into the global opcodes, and any other
/// into the local opcodes of the page, counted from the number of global
/// opcodes. An index beyond both tables points at nothing.
pub open spec fn opcode_at_index(index: int, global_opcodes: Seq<u32>, local_opcodes: Seq<u32>)
    -> Option<u32> {
    if 0 <= index < global_opcodes.len() {
        Some(global_opcodes[index])
    } else if global_opcodes.len() <= index < global_opcodes.len() + local_opcodes.len() {
        Some(local_opcodes[index - global_opcodes.len()])
    } else {
        None
    }
}

/// One entry of a compressed page: the opcode index in the top eight bits,
/// and in the low 24 bits the instruction address, counted from the first
/// address of the page.
pub struct CompressedEntryBitfield(pub u32);

impl CompressedEntryBitfield {
    pub fn new(value: u32) -> (entry: Self)
        ensures
            entry.0 == value,
    {
        CompressedEntryBitfield(value)
    }

    /// The index of the entry's opcode.
    pub fn opcode_index(&self) -> (index: u8)
        ensures
            index == field(self.0, 0x100_0000, 0x100),
    {
        let word: u32 = self.0;
        assert(word >> 24 == (word / 0x100_0000) % 0x100) by (bit_vector);
        (word >> 24) as u8
    }

    /// The instruction address, counted from the first address of the page.
    pub fn relative_instruction_address(&self) -> (address: u32)
        ensures
            address == field(self.0, 1, 0x100_0000),
    {
        let word: u32 = self.0;
        assert(word & 0xffffff == word % 0x100_0000) by (bit_vector);
        word & 0xffffff
    }

    /// The opcode of the entry, from the global opcodes or from the local
    /// opcodes of its page.
    pub fn opcode(&self, global_opcodes: &WordTable, local_opcodes: &WordTable) -> (result: Result<
        u32,
        DecodeError,
    >)
        ensures
            result == match opcode_at_index(
                field(self.0, 0x100_0000, 0x100),
                global_opcodes@,
                local_opcodes@,
            ) {
                Some(opcode) => Ok::<u32, DecodeError>(opcode),
                None => Err::<u32, DecodeError>(DecodeError::OpcodeIndex),
            },
    {
        let index = self.opcode_index() as usize;
        let global_count = global_opcodes.len();
        let found = if index < global_count {
            global_opcodes.get(index)
        } else {
            local_opcodes.get(index - global_count)
        };
        match found {
            Some(opcode) => Ok(opcode),
            None => Err(DecodeError::OpcodeIndex),
        }
    }
}

} // verus!
