//! The header of the metadata and its table of pages.

use vstd::prelude::*;
use super::bytes::in_bounds;
use super::bytes::read_u32;
use super::bytes::u32_at;
use super::bytes::words_at;
use super::bytes::WordTable;
use super::error::DecodeError;

verus! {

/// The size of the header in bytes.
pub const HEADER_SIZE: u64 = 28;

/// The header: where the table of global opcodes and the table of pages
/// lie, as offsets from the start of the metadata and counts of entries.
#[derive(Clone, Copy, Debug, PartialEq, Eq)]
pub struct CompactUnwindInfoHeader {
    pub version: u32,
    pub global_opcodes_offset: u32,
    pub global_opcodes_len: u32,
    pub pages_offset: u32,
    pub pages_len: u32,
}

/// One entry of the table of pages.
#[derive(Clone, Copy, Debug, PartialEq, Eq)]
pub struct PageEntry {
    /// The first instruction address that the page covers.
    pub first_address: u32,
    /// Where the page lies, as an offset from the start of the metadata.
    pub page_offset: u32,
    pub lsda_index_offset: u32,
}

/// The page entry that the twelve bytes at `at` hold.
pub open spec fn page_entry_at(data: Seq<u8>, at: int) -> PageEntry {
    PageEntry {
        first_address: u32_at(data, at),
        page_offset: u32_at(data, at + 4),
        lsda_index_offset: u32_at(data, at + 8),
    }
}

/// The `count` page entries that lie one after the other from the offset
/// `at`.
pub open spec fn page_entries_at(data: Seq<u8>, at: int, count: int) -> Seq<PageEntry> {
    Seq::new(count as nat, |i: int| page_entry_at(data, at + 12 * i))
}

impl CompactUnwindInfoHeader {
    /// The header that the first bytes of `data` hold.
    pub open spec fn at_start(data: Seq<u8>) -> Self {
        CompactUnwindInfoHeader {
            version: u32_at(data, 0),
            global_opcodes_offset: u32_at(data, 4),
            global_opcodes_len: u32_at(data, 8),
            pages_offset: u32_at(data, 20),
            pages_len: u32_at(data, 24),
        }
    }

    /// The table of global opcodes lies within `data`.
    pub open spec fn global_opcodes_in_bounds(self, data: Seq<u8>) -> bool {
        in_bounds(data, self.global_opcodes_offset as int, 4 * self.global_opcodes_len)
    }

    /// The table of pages lies within `data`.
    pub open spec fn pages_in_bounds(self, data: Seq<u8>) -> bool {
        in_bounds(data, self.pages_offset as int, 12 * self.pages_len)
    }

    /// What parsing `data` gives: the header, or what does not lie within
    /// `data`: the header itself, else the table of global opcodes, else the
    /// table of pages.
    pub open spec fn parsed(data: Seq<u8>) -> Result<Self, DecodeError> {
        let header = Self::at_start(data);
        if !in_bounds(data, 0, 28) {
            Err(DecodeError::Header)
        } else if !header.global_opcodes_in_bounds(data) {
            Err(DecodeError::GlobalOpcodes)
        } else if !header.pages_in_bounds(data) {
            Err(DecodeError::Pages)
        } else {
            Ok(header)
        }
    }

    /// Reads the header and checks that it and its two tables lie within
    /// `data`.
    pub fn parse(data: &[u8]) -> (result: Result<Self, DecodeError>)
        ensures
            result == Self::parsed(data@),
    {
        if (data.len() as u64) < HEADER_SIZE {
            return Err(DecodeError::Header);
        }
        let header = match (
            read_u32(data, 0),
            read_u32(data, 4),
            read_u32(data, 8),
            read_u32(data, 20),
            read_u32(data, 24),
        ) {
            (
                Some(version),
                Some(global_opcodes_offset),
                Some(global_opcodes_len),
                Some(pages_offset),
                Some(pages_len),
            ) => CompactUnwindInfoHeader {
                version,
                global_opcodes_offset,
                global_opcodes_len,
                pages_offset,
                pages_len,
            },
            _ => {
                return Err(DecodeError::Header);
            },
        };
        if header.global_opcodes(data).is_err() {
            return Err(DecodeError::GlobalOpcodes);
        }
        if header.pages(data).is_err() {
            return Err(DecodeError::Pages);
        }
        Ok(header)
    }

    /// The table of global opcodes, if it lies within `data`.
    pub fn global_opcodes<'a>(&self, data: &'a [u8]) -> (result: Result<WordTable<'a>, DecodeError>)
        ensures
            self.global_opcodes_in_bounds(data@) ==> (result matches Ok(table) && table@
                == words_at(
                data@,
                self.global_opcodes_offset as int,
                self.global_opcodes_len as int,
            )),
            !self.global_opcodes_in_bounds(data@) ==> result matches Err(
                DecodeError::GlobalOpcodes,
            ),
    {
        match WordTable::read(
            data,
            self.global_opcodes_offset as u64,
            self.global_opcodes_len as u64,
        ) {
            Some(table) => Ok(table),
            None => Err(DecodeError::GlobalOpcodes),
        }
    }

    /// The table of pages, if it lies within `data`.
    pub fn pages<'a>(&self, data: &'a [u8]) -> (result: Result<PageTable<'a>, DecodeError>)
        ensures
            self.pages_in_bounds(data@) ==> (result matches Ok(table) && table@ == page_entries_at(
                data@,
                self.pages_offset as int,
                self.pages_len as int,
            )),
            !self.pages_in_bounds(data@) ==> result matches Err(DecodeError::Pages),
    {
        match PageTable::read(data, self.pages_offset as u64, self.pages_len) {
            Some(table) => Ok(table),
            None => Err(DecodeError::Pages),
        }
    }
}

impl PageEntry {
    /// The kind of the page: the number at the offset of the page.
    pub fn page_kind(&self, data: &[u8]) -> (result: Result<u32, DecodeError>)
        ensures
            in_bounds(data@, self.page_offset as int, 4) ==> result == Ok::<u32, DecodeError>(
                u32_at(data@, self.page_offset as int),
            ),
            !in_bounds(data@, self.page_offset as int, 4) ==> result == Err::<u32, DecodeError>(
                DecodeError::PageKind,
            ),
    {
        match read_u32(data, self.page_offset as u64) {
            Some(kind) => Ok(kind),
            None => Err(DecodeError::PageKind),
        }
    }
}

/// The table of pages as it lies in the bytes of the metadata.
#[derive(Clone, Copy)]
pub struct PageTable<'a> {
    words: WordTable<'a>,
}

impl<'a> PageTable<'a> {
    #[verifier::type_invariant]
    spec fn whole_entries(self) -> bool {
        self.words@.len() % 3 == 0
    }

    /// The entries of the table.
    pub closed spec fn view(&self) -> Seq<PageEntry> {
        Seq::new(
            self.words@.len() / 3,
            |i: int|
                PageEntry {
                    first_address: self.words@[3 * i],
                    page_offset: self.words@[3 * i + 1],
                    lsda_index_offset: self.words@[3 * i + 2],
                },
        )
    }

    /// The table of `count` page entries at the offset `at` of `data`, if
    /// all of it lies within `data`.
    pub fn read(data: &'a [u8], at: u64, count: u32) -> (table: Option<Self>)
        ensures
            in_bounds(data@, at as int, 12 * count) ==> (table matches Some(t) && t@
                == page_entries_at(data@, at as int, count as int)),
            !in_bounds(data@, at as int, 12 * count) ==> table is None,
    {
        match WordTable::read(data, at, 3 * (count as u64)) {
            Some(words) => {
                let table = PageTable { words };
                assert(table@ =~= page_entries_at(data@, at as int, count as int));
                Some(table)
            },
            None => None,
        }
    }

    /// How many entries the table holds.
    pub fn len(&self) -> (len: usize)
        ensures
            len == self@.len(),
    {
        proof {
            use_type_invariant(self);
        }
        self.words.len() / 3
    }

    /// The entry at the place `index`, if the table has that many.
    pub fn get(&self, index: usize) -> (entry: Option<PageEntry>)
        ensures
            index < self@.len() ==> entry == Some(self@[index as int]),
            index >= self@.len() ==> entry is None,
    {
        proof {
            use_type_invariant(self);
        }
        if index >= self.words.len() / 3 {
            return None;
        }
        match (
            self.words.get(3 * index),
            self.words.get(3 * index + 1),
            self.words.get(3 * index + 2),
        ) {
            (Some(first_address), Some(page_offset), Some(lsda_index_offset)) => Some(
                PageEntry { first_address, page_offset, lsda_index_offset },
            ),
            _ => None,
        }
    }
}

} // verus!
