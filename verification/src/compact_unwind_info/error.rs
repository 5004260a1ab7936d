//! The errors of decoding the metadata.

use vstd::prelude::*;

verus! {

/// What could not be decoded, because it does not lie within the bytes of
/// the metadata or points outside its tables.
#[derive(Clone, Copy, Debug, PartialEq, Eq)]
pub enum DecodeError {
    /// The header.
    Header,
    /// The table of global opcodes.
    GlobalOpcodes,
    /// The table of pages.
    Pages,
    /// The kind of a page.
    PageKind,
    /// The head of a regular page.
    RegularPage,
    /// The entries of a regular page.
    RegularPageEntries,
    /// The head of a compressed page.
    CompressedPage,
    /// The entries of a compressed page.
    CompressedPageEntries,
    /// The table of local opcodes of a compressed page.
    LocalOpcodes,
    /// The opcode of an entry of a compressed page: its index is in neither
    /// table of opcodes.
    OpcodeIndex,
}

} // verus!
