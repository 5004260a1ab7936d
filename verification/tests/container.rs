use framehop::compact_unwind_info::bytes::read_u16;
use framehop::compact_unwind_info::bytes::read_u32;
use framehop::compact_unwind_info::bytes::WordTable;
use framehop::compact_unwind_info::error::DecodeError;
use framehop::compact_unwind_info::header::CompactUnwindInfoHeader;
use framehop::compact_unwind_info::header::PageEntry;
use framehop::compact_unwind_info::pages::CompressedEntryBitfield;
use framehop::compact_unwind_info::pages::CompressedPage;
use framehop::compact_unwind_info::pages::RegularEntry;
use framehop::compact_unwind_info::pages::RegularPage;
use framehop::compact_unwind_info::pages::PAGE_KIND_COMPRESSED;
use framehop::compact_unwind_info::pages::PAGE_KIND_REGULAR;
use framehop::compact_unwind_info::pages::PAGE_KIND_SENTINEL;

fn push_u16(data: &mut Vec<u8>, n: u16) {
    data.push(n as u8);
    data.push((n >> 8) as u8);
}

fn push_u32(data: &mut Vec<u8>, n: u32) {
    push_u16(data, n as u16);
    push_u16(data, (n >> 16) as u16);
}

/// Metadata with two global opcodes, a regular page with two entries, a
/// compressed page with three entries and two local opcodes, and the
/// sentinel.
fn metadata() -> Vec<u8> {
    let mut data = Vec::new();
    // header
    push_u32(&mut data, 1);
    push_u32(&mut data, 28);
    push_u32(&mut data, 2);
    push_u32(&mut data, 36);
    push_u32(&mut data, 0);
    push_u32(&mut data, 36);
    push_u32(&mut data, 3);
    // global opcodes, at 28
    push_u32(&mut data, 0x0100_0000);
    push_u32(&mut data, 0x0400_0010);
    // pages, at 36
    push_u32(&mut data, 0x1000);
    push_u32(&mut data, 72);
    push_u32(&mut data, 0);
    push_u32(&mut data, 0x2000);
    push_u32(&mut data, 96);
    push_u32(&mut data, 0);
    push_u32(&mut data, 0x3000);
    push_u32(&mut data, 0);
    push_u32(&mut data, 0);
    // regular page, at 72
    push_u32(&mut data, PAGE_KIND_REGULAR);
    push_u16(&mut data, 8);
    push_u16(&mut data, 2);
    push_u32(&mut data, 0x1000);
    push_u32(&mut data, 0x0201_0000);
    push_u32(&mut data, 0x1800);
    push_u32(&mut data, 0x0300_0000);
    // compressed page, at 96
    push_u32(&mut data, PAGE_KIND_COMPRESSED);
    push_u16(&mut data, 12);
    push_u16(&mut data, 3);
    push_u16(&mut data, 24);
    push_u16(&mut data, 2);
    push_u32(&mut data, 0x0000_0000);
    push_u32(&mut data, 0x0200_0100);
    push_u32(&mut data, 0x0400_0200);
    push_u32(&mut data, 0x0204_0405);
    push_u32(&mut data, 0x0000_0000);
    data
}

#[test]
fn numbers_are_read_low_byte_first() {
    let data = [0x01, 0x02, 0x03, 0x04, 0xff];
    assert_eq!(read_u16(&data, 0), Some(0x0201));
    assert_eq!(read_u16(&data, 3), Some(0xff04));
    assert_eq!(read_u16(&data, 4), None);
    assert_eq!(read_u32(&data, 0), Some(0x0403_0201));
    assert_eq!(read_u32(&data, 1), Some(0xff04_0302));
    assert_eq!(read_u32(&data, 2), None);
    assert_eq!(read_u32(&data, u64::MAX), None);
    assert_eq!(read_u32(&[0xff, 0xff, 0xff, 0xff], 0), Some(u32::MAX));
}

#[test]
fn word_table_is_bounds_checked() {
    let data = [1, 0, 0, 0, 2, 0, 0, 0, 3];
    let table = WordTable::read(&data, 0, 2).unwrap();
    assert_eq!(table.len(), 2);
    assert_eq!(table.get(0), Some(1));
    assert_eq!(table.get(1), Some(2));
    assert_eq!(table.get(2), None);
    assert_eq!(WordTable::read(&data, 1, 2).unwrap().get(1), Some(0x0300_0000));
    assert!(WordTable::read(&data, 2, 2).is_none());
    assert!(WordTable::read(&data, 0, 3).is_none());
    assert!(WordTable::read(&data, 0, u64::MAX).is_none());
    assert!(WordTable::read(&data, 10, 0).is_none());
    assert_eq!(WordTable::read(&data, 9, 0).unwrap().len(), 0);
}

#[test]
fn header_is_parsed() {
    let data = metadata();
    assert_eq!(
        CompactUnwindInfoHeader::parse(&data),
        Ok(CompactUnwindInfoHeader {
            version: 1,
            global_opcodes_offset: 28,
            global_opcodes_len: 2,
            pages_offset: 36,
            pages_len: 3,
        })
    );
}

#[test]
fn truncated_header_is_an_error() {
    let data = metadata();
    assert_eq!(CompactUnwindInfoHeader::parse(&data[..27]), Err(DecodeError::Header));
    assert_eq!(CompactUnwindInfoHeader::parse(&[]), Err(DecodeError::Header));
    assert_eq!(CompactUnwindInfoHeader::parse(&data[..35]), Err(DecodeError::GlobalOpcodes));
    assert_eq!(CompactUnwindInfoHeader::parse(&data[..71]), Err(DecodeError::Pages));
    assert!(CompactUnwindInfoHeader::parse(&data[..72]).is_ok());
}

#[test]
fn tables_of_the_header_are_checked_again() {
    let data = metadata();
    let header = CompactUnwindInfoHeader::parse(&data).unwrap();
    let global_opcodes = header.global_opcodes(&data).unwrap();
    assert_eq!(global_opcodes.len(), 2);
    assert_eq!(global_opcodes.get(0), Some(0x0100_0000));
    assert_eq!(global_opcodes.get(1), Some(0x0400_0010));
    assert!(matches!(header.global_opcodes(&data[..30]), Err(DecodeError::GlobalOpcodes)));
    let pages = header.pages(&data).unwrap();
    assert_eq!(pages.len(), 3);
    assert_eq!(pages.get(0), Some(PageEntry { first_address: 0x1000, page_offset: 72, lsda_index_offset: 0 }));
    assert_eq!(pages.get(1), Some(PageEntry { first_address: 0x2000, page_offset: 96, lsda_index_offset: 0 }));
    assert_eq!(pages.get(2), Some(PageEntry { first_address: 0x3000, page_offset: 0, lsda_index_offset: 0 }));
    assert_eq!(pages.get(3), None);
    assert!(matches!(header.pages(&data[..60]), Err(DecodeError::Pages)));
}

#[test]
fn page_kind_is_read_at_the_page() {
    let data = metadata();
    let pages = CompactUnwindInfoHeader::parse(&data).unwrap().pages(&data).unwrap();
    assert_eq!(pages.get(0).unwrap().page_kind(&data), Ok(PAGE_KIND_REGULAR));
    assert_eq!(pages.get(1).unwrap().page_kind(&data), Ok(PAGE_KIND_COMPRESSED));
    assert_eq!(pages.get(2).unwrap().page_kind(&data), Ok(PAGE_KIND_SENTINEL));
    let beyond = PageEntry { first_address: 0, page_offset: data.len() as u32 - 3, lsda_index_offset: 0 };
    assert_eq!(beyond.page_kind(&data), Err(DecodeError::PageKind));
}

#[test]
fn regular_page_is_parsed() {
    let data = metadata();
    let page = RegularPage::parse(&data, 72).unwrap();
    assert_eq!(page, RegularPage { kind: 2, entries_offset: 8, entries_len: 2 });
    let entries = page.entries(&data, 72).unwrap();
    assert_eq!(entries.len(), 2);
    assert_eq!(entries.get(0), Some(RegularEntry { instruction_address: 0x1000, opcode: 0x0201_0000 }));
    assert_eq!(entries.get(1), Some(RegularEntry { instruction_address: 0x1800, opcode: 0x0300_0000 }));
    assert_eq!(entries.get(2), None);
}

#[test]
fn truncated_regular_page_is_an_error() {
    let data = metadata();
    assert_eq!(RegularPage::parse(&data[..79], 72), Err(DecodeError::RegularPage));
    assert_eq!(RegularPage::parse(&data, data.len() as u64), Err(DecodeError::RegularPage));
    assert_eq!(RegularPage::parse(&data, u64::MAX), Err(DecodeError::RegularPage));
    let page = RegularPage::parse(&data, 72).unwrap();
    assert!(matches!(page.entries(&data[..95], 72), Err(DecodeError::RegularPageEntries)));
    assert!(matches!(page.entries(&data, u32::MAX), Err(DecodeError::RegularPageEntries)));
}

#[test]
fn compressed_page_is_parsed() {
    let data = metadata();
    let page = CompressedPage::parse(&data, 96).unwrap();
    assert_eq!(
        page,
        CompressedPage { kind: 3, entries_offset: 12, entries_len: 3, local_opcodes_offset: 24, local_opcodes_len: 2 }
    );
    let entries = page.entries(&data, 96).unwrap();
    assert_eq!(entries.len(), 3);
    assert_eq!(entries.get(1), Some(0x0200_0100));
    let local_opcodes = page.local_opcodes(&data, 96).unwrap();
    assert_eq!(local_opcodes.len(), 2);
    assert_eq!(local_opcodes.get(0), Some(0x0204_0405));
}

#[test]
fn truncated_compressed_page_is_an_error() {
    let data = metadata();
    assert_eq!(CompressedPage::parse(&data[..107], 96), Err(DecodeError::CompressedPage));
    let page = CompressedPage::parse(&data, 96).unwrap();
    assert!(matches!(page.entries(&data[..119], 96), Err(DecodeError::CompressedPageEntries)));
    assert!(matches!(page.local_opcodes(&data[..127], 96), Err(DecodeError::LocalOpcodes)));
}

#[test]
fn compressed_entry_is_split() {
    let entry = CompressedEntryBitfield::new(0x0412_3456);
    assert_eq!(entry.opcode_index(), 4);
    assert_eq!(entry.relative_instruction_address(), 0x12_3456);
    let entry = CompressedEntryBitfield::new(0xff00_0000);
    assert_eq!(entry.opcode_index(), 255);
    assert_eq!(entry.relative_instruction_address(), 0);
}

#[test]
fn opcode_index_selects_the_table() {
    let data = metadata();
    let header = CompactUnwindInfoHeader::parse(&data).unwrap();
    let global_opcodes = header.global_opcodes(&data).unwrap();
    let page = CompressedPage::parse(&data, 96).unwrap();
    let entries = page.entries(&data, 96).unwrap();
    let local_opcodes = page.local_opcodes(&data, 96).unwrap();
    let opcode = |index: usize| {
        CompressedEntryBitfield::new(entries.get(index).unwrap()).opcode(&global_opcodes, &local_opcodes)
    };
    assert_eq!(opcode(0), Ok(0x0100_0000));
    assert_eq!(opcode(1), Ok(0x0204_0405));
    assert_eq!(opcode(2), Err(DecodeError::OpcodeIndex));
    let entry = CompressedEntryBitfield::new(0x0100_0000);
    assert_eq!(entry.opcode(&global_opcodes, &local_opcodes), Ok(0x0400_0010));
    let entry = CompressedEntryBitfield::new(0x0300_0000);
    assert_eq!(entry.opcode(&global_opcodes, &local_opcodes), Ok(0));
    let entry = CompressedEntryBitfield::new(0xff00_0000);
    assert_eq!(entry.opcode(&global_opcodes, &local_opcodes), Err(DecodeError::OpcodeIndex));
}
