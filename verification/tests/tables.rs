use smxdasm::errors::Error;
use smxdasm::headers::{SMXHeader, SectionEntry};
use smxdasm::reader::ByteCursor;
use smxdasm::rtti::tables::{
    RTTIEnum, RTTIMethod, SMXRTTIClassDefTable, SMXRTTIEnumStructFieldTable,
    SMXRTTIEnumStructTable, SMXRTTIEnumTable, SMXRTTIFieldTable, SMXRTTIMethodTable,
    SMXRTTINativeTable, SMXRTTITypedefTable, SMXRTTITypesetTable,
};
use smxdasm::rtti::SMXRTTIListTable;
use smxdasm::sections::{
    SMXCalledFunctionsTable, SMXCodeV1Section, SMXDataSection, SMXNameTable, SMXNativeTable,
    SMXPublicTable, SMXPubvarTable, SMXTagTable, Tag, TagFlags,
};
use smxdasm::v1types::{
    CodeV1Header, DataHeader, DebugVarEntry, NativeEntry, PublicEntry, TagEntry,
};

fn whole(bytes: &[u8]) -> (SMXHeader, SectionEntry) {
    (SMXHeader::new(bytes.to_vec(), 0), SectionEntry::new(0, 0, bytes.len() as i32))
}

fn names(bytes: &[u8]) -> SMXNameTable {
    let (header, section) = whole(bytes);
    SMXNameTable::new(&header, &section).unwrap()
}

// "one" at 0, "two" at 4, "three" at 8.
fn pool() -> SMXNameTable {
    names(b"one\0two\0three\0")
}

fn words(values: &[i32]) -> Vec<u8> {
    let mut bytes = Vec::new();
    for v in values {
        bytes.extend_from_slice(&v.to_le_bytes());
    }
    bytes
}

fn row_table(row_size: u32, count: u32, rows: &[u8]) -> Vec<u8> {
    let mut bytes = Vec::new();
    bytes.extend_from_slice(&12u32.to_le_bytes());
    bytes.extend_from_slice(&row_size.to_le_bytes());
    bytes.extend_from_slice(&count.to_le_bytes());
    bytes.extend_from_slice(rows);
    bytes
}

#[test]
fn cursor_reads_little_endian_numbers() {
    let bytes = [0x78, 0x56, 0x34, 0x12, 0xfe, 0xff, 0xff, 0xff, 0x34, 0x12, 0x7f];
    let mut cursor = ByteCursor::new(&bytes);
    assert_eq!(cursor.read_u32().unwrap(), 0x1234_5678);
    assert_eq!(cursor.position(), 4);
    assert_eq!(cursor.read_i32().unwrap(), -2);
    assert_eq!(cursor.read_u16().unwrap(), 0x1234);
    assert_eq!(cursor.read_u8().unwrap(), 0x7f);
    assert_eq!(cursor.position(), 11);
}

#[test]
fn cursor_reads_the_largest_numbers() {
    let bytes = [0xff, 0xff, 0xff, 0xff, 0xff, 0xff, 0xff, 0x7f, 0x00, 0x00, 0x00, 0x80];
    let mut cursor = ByteCursor::new(&bytes);
    assert_eq!(cursor.read_u32().unwrap(), u32::MAX);
    assert_eq!(cursor.read_i32().unwrap(), i32::MAX);
    assert_eq!(cursor.read_i32().unwrap(), i32::MIN);
}

#[test]
fn cursor_fails_past_the_end_and_stays() {
    let bytes = [1, 2, 3];
    let mut cursor = ByteCursor::new(&bytes);
    assert!(matches!(cursor.read_u32(), Err(Error::Io(_))));
    assert!(matches!(cursor.read_i32(), Err(Error::Io(_))));
    assert_eq!(cursor.position(), 0);
    assert_eq!(cursor.read_u16().unwrap(), 0x0201);
    assert!(matches!(cursor.read_u16(), Err(Error::Io(_))));
    assert_eq!(cursor.read_u8().unwrap(), 3);
    assert!(matches!(cursor.read_u8(), Err(Error::Io(_))));
    assert_eq!(cursor.position(), 3);
}

#[test]
fn cursor_may_stand_past_the_end() {
    let bytes = [1, 2, 3, 4];
    let mut cursor = ByteCursor::at(&bytes, 9);
    assert!(matches!(cursor.read_u8(), Err(Error::Io(_))));
    let mut cursor = ByteCursor::new(&bytes);
    cursor.skip(2);
    assert_eq!(cursor.read_u8().unwrap(), 3);
    cursor.skip(100);
    assert_eq!(cursor.position(), 103);
    assert!(matches!(cursor.read_u32(), Err(Error::Io(_))));
}

#[test]
fn list_table_reads_its_three_numbers() {
    let (header, section) = whole(&[]);
    let mut list = SMXRTTIListTable::new(&header, &section);
    assert_eq!((list.header_size(), list.row_size(), list.row_count()), (0, 0, 0));
    list.init(&row_table(8, 3, &[])).unwrap();
    assert_eq!((list.header_size(), list.row_size(), list.row_count()), (12, 8, 3));
}

#[test]
fn list_table_needs_twelve_bytes() {
    let (header, section) = whole(&[]);
    let mut list = SMXRTTIListTable::new(&header, &section);
    assert!(matches!(list.init(&[12, 0, 0, 0, 8, 0, 0, 0, 1, 0, 0]), Err(Error::Io(_))));
    assert!(matches!(list.init(&[]), Err(Error::Io(_))));
}

#[test]
fn reading_the_rows_consumes_header_and_rows() {
    let (header, section) = whole(&[]);
    let mut pool = pool();
    let mut list = SMXRTTIListTable::new(&header, &section);
    let bytes = row_table(16, 3, &words(&[0, 1, 2, 3, 4, 10, 20, 30, 8, 7, 8, 9]));
    let (rows, consumed) = list.read_rows::<RTTIMethod>(&bytes, &mut pool).unwrap();
    assert_eq!(rows.len(), 3);
    assert_eq!(consumed, 12 + 3 * 16);
    assert_eq!(consumed, (list.header_size() + list.row_count() * list.row_size()) as u64);
    assert_eq!(consumed, bytes.len() as u64);
}

#[test]
fn reading_rows_that_fail_leaves_the_cursor_where_it_was() {
    let mut pool = pool();
    let bytes = words(&[0, 1, 4, 2, 99, 3]);
    let mut cursor = ByteCursor::at(&bytes, 0);
    let read = smxdasm::records::read_rows::<smxdasm::rtti::tables::RTTITypedef>;
    assert!(matches!(read(&mut cursor, 3, &mut pool), Err(Error::InvalidIndex)));
    assert_eq!(cursor.position(), 0);
    let rows = read(&mut cursor, 2, &mut pool).unwrap();
    assert_eq!(cursor.position(), 16);
    assert_eq!((rows[1].name.as_str(), rows[1].type_id), ("two", 2));
    let plain = smxdasm::records::read_plain_rows::<DebugVarEntry>;
    assert!(matches!(plain(&mut cursor, 1), Err(Error::Io(_))));
    assert_eq!(cursor.position(), 16);
}

#[test]
fn reading_padded_rows_consumes_the_padding() {
    let (header, section) = whole(&[]);
    let mut pool = pool();
    let mut list = SMXRTTIListTable::new(&header, &section);
    let bytes = row_table(16, 2, &words(&[0, 0, 0, 0, 4]));
    let (rows, consumed) = list.read_rows::<RTTIEnum>(&bytes, &mut pool).unwrap();
    assert_eq!(rows.len(), 2);
    assert_eq!(rows[1].name, "two");
    assert_eq!(consumed, 12 + 2 * 16);
}

#[test]
fn reading_plain_rows_consumes_header_and_rows() {
    let (header, section) = whole(&[]);
    let mut list = SMXRTTIListTable::new(&header, &section);
    let mut rows = vec![0u8; 42];
    rows[21] = 9;
    let bytes = row_table(21, 2, &rows);
    let (vars, consumed) = list.read_plain_rows::<DebugVarEntry>(&bytes).unwrap();
    assert_eq!(vars.len(), 2);
    assert_eq!(vars[1].address, 9);
    assert_eq!(consumed, 12 + 2 * 21);
}

#[test]
fn enum_table_holds_the_names() {
    let mut pool = pool();
    let (h, s) = whole(&row_table(16, 2, &words(&[8, 0, 0, 0, 0, 0, 0, 0])));
    let table = SMXRTTIEnumTable::new(&h, &s, &mut pool).unwrap();
    assert_eq!(table.enums(), vec!["three", "one"]);
    assert_eq!(table.len(), 2);
    assert_eq!(table.lookup(1).unwrap(), "one");
    assert!(matches!(table.lookup(2), Err(Error::InvalidIndex)));
    assert!(matches!(table.lookup(-1), Err(Error::InvalidIndex)));
}

#[test]
fn enum_table_may_lack_the_padding_of_its_last_row() {
    let mut pool = pool();
    let (h, s) = whole(&row_table(16, 2, &words(&[8, 0, 0, 0, 4])));
    let table = SMXRTTIEnumTable::new(&h, &s, &mut pool).unwrap();
    assert_eq!(table.enums(), vec!["three", "two"]);
}

#[test]
fn method_table_holds_name_range_and_signature() {
    let mut pool = pool();
    let (h, s) = whole(&row_table(16, 2, &words(&[4, 100, 200, 7, 0, 200, 260, -1])));
    let table = SMXRTTIMethodTable::new(&h, &s, &mut pool).unwrap();
    let methods = table.methods();
    assert_eq!(methods.len(), 2);
    assert_eq!(methods[0].name, "two");
    assert_eq!(methods[0].pcode_start, 100);
    assert_eq!(methods[0].pcode_end, 200);
    assert_eq!(methods[0].signature, 7);
    assert_eq!(methods[1].name, "one");
    assert_eq!(methods[1].signature, -1);
    assert_eq!(table.methods_ref().len(), 2);
}

#[test]
fn native_typedef_and_typeset_tables() {
    let mut pool = pool();
    let (h, s) = whole(&row_table(8, 1, &words(&[8, 33])));
    let natives = SMXRTTINativeTable::new(&h, &s, &mut pool).unwrap().natives();
    assert_eq!((natives[0].name.as_str(), natives[0].signature), ("three", 33));
    let typedefs = SMXRTTITypedefTable::new(&h, &s, &mut pool).unwrap().typedefs();
    assert_eq!((typedefs[0].name.as_str(), typedefs[0].type_id), ("three", 33));
    let typesets = SMXRTTITypesetTable::new(&h, &s, &mut pool).unwrap().typesets();
    assert_eq!((typesets[0].name.as_str(), typesets[0].signature), ("three", 33));
}

#[test]
fn enum_struct_tables() {
    let mut pool = pool();
    let (h, s) = whole(&row_table(12, 2, &words(&[0, 5, 16, 4, 6, 24])));
    let structs = SMXRTTIEnumStructTable::new(&h, &s, &mut pool).unwrap().entries();
    assert_eq!(structs[0].name, "one");
    assert_eq!((structs[0].name_offset, structs[0].first_field, structs[0].size), (0, 5, 16));
    assert_eq!(structs[1].name, "two");
    let fields = SMXRTTIEnumStructFieldTable::new(&h, &s, &mut pool).unwrap().entries();
    assert_eq!(fields[1].name, "two");
    assert_eq!((fields[1].name_offset, fields[1].type_id, fields[1].offset), (4, 6, 24));
}

#[test]
fn class_def_table_skips_four_reserved_numbers() {
    let mut pool = pool();
    let rows = words(&[1, 4, 2, 0, 0, 0, 0, 3, 8, 9, 0, 0, 0, 0]);
    let (h, s) = whole(&row_table(28, 2, &rows));
    let defs = SMXRTTIClassDefTable::new(&h, &s, &mut pool).unwrap().defs();
    assert_eq!(defs.len(), 2);
    assert_eq!((defs[0].flags, defs[0].name_offset, defs[0].first_field), (1, 4, 2));
    assert_eq!(defs[0].name, "two");
    assert_eq!((defs[1].flags, defs[1].name_offset, defs[1].first_field), (3, 8, 9));
    assert_eq!(defs[1].name, "three");
}

#[test]
fn field_table_holds_flags_name_and_type() {
    let mut pool = pool();
    let (h, s) = whole(&row_table(12, 1, &words(&[2, 8, 0x60])));
    let fields = SMXRTTIFieldTable::new(&h, &s, &mut pool).unwrap().fields();
    assert_eq!((fields[0].flags, fields[0].name_offset, fields[0].type_id), (2, 8, 0x60));
    assert_eq!(fields[0].name, "three");
}

#[test]
fn row_table_without_rows_is_empty() {
    let mut pool = pool();
    let (h, s) = whole(&row_table(8, 0, &[]));
    assert_eq!(SMXRTTITypedefTable::new(&h, &s, &mut pool).unwrap().len(), 0);
}

#[test]
fn row_table_that_is_cut_short_fails() {
    let mut pool = pool();
    let (h, s) = whole(&row_table(8, 2, &words(&[0, 1, 4])));
    assert!(matches!(SMXRTTITypedefTable::new(&h, &s, &mut pool), Err(Error::Io(_))));
    let (h, s) = whole(&[12, 0, 0, 0]);
    assert!(matches!(SMXRTTITypedefTable::new(&h, &s, &mut pool), Err(Error::Io(_))));
    let (h, s) = whole(&row_table(12, 1, &words(&[0, 1])));
    assert!(matches!(SMXRTTIFieldTable::new(&h, &s, &mut pool), Err(Error::Io(_))));
}

#[test]
fn row_table_with_a_name_outside_the_pool_fails() {
    let mut pool = pool();
    let (h, s) = whole(&row_table(8, 2, &words(&[0, 1, 14, 2])));
    assert!(matches!(SMXRTTITypedefTable::new(&h, &s, &mut pool), Err(Error::InvalidIndex)));
    let (h, s) = whole(&row_table(12, 1, &words(&[0, -1, 2])));
    assert!(matches!(SMXRTTIFieldTable::new(&h, &s, &mut pool), Err(Error::InvalidIndex)));
}

#[test]
fn the_first_bad_row_decides_the_error() {
    let mut pool = pool();
    // Row 0 names nothing; row 1 is cut short.
    let (h, s) = whole(&row_table(8, 2, &words(&[99, 1, 4])));
    assert!(matches!(SMXRTTITypedefTable::new(&h, &s, &mut pool), Err(Error::InvalidIndex)));
    // A method's name is looked up before the rest of its row is read.
    let (h, s) = whole(&row_table(16, 1, &words(&[99])));
    assert!(matches!(SMXRTTIMethodTable::new(&h, &s, &mut pool), Err(Error::InvalidIndex)));
    // An enum struct's row is read whole before its name is looked up.
    let (h, s) = whole(&row_table(12, 1, &words(&[99])));
    assert!(matches!(SMXRTTIEnumStructTable::new(&h, &s, &mut pool), Err(Error::Io(_))));
}

#[test]
fn row_table_of_a_section_outside_the_image_is_refused() {
    let mut pool = pool();
    let header = SMXHeader::new(row_table(8, 0, &[]), 0);
    let section = SectionEntry::new(0, 13, 0);
    assert!(matches!(SMXRTTITypedefTable::new(&header, &section, &mut pool), Err(Error::InvalidOffset)));
    let section = SectionEntry::new(0, 0, 13);
    assert!(matches!(SMXRTTITypedefTable::new(&header, &section, &mut pool), Err(Error::InvalidSize)));
}

#[test]
fn natives_table() {
    let mut pool = pool();
    let (h, s) = whole(&words(&[4, 0, 8]));
    let table = SMXNativeTable::new(&h, &s, &mut pool).unwrap();
    assert_eq!(table.size(), 3);
    assert_eq!(table.get_entry(0).name, "two");
    assert_eq!(table.get_entry(2).name, "three");
    assert_eq!(table.get_entry(2).name_offset, 8);
    let all = table.entries();
    assert_eq!(all.len(), 3);
    assert_eq!(all[1].name, "one");
}

#[test]
fn natives_from_bytes_and_section() {
    let mut pool = pool();
    let bytes = words(&[8, 4]);
    let section = SectionEntry::new(0, 0, 8);
    let entries = NativeEntry::new(&bytes, &section, &mut pool).unwrap();
    assert_eq!(entries.len(), 2);
    assert_eq!(entries[0].name, "three");
    // The section's size decides how many records are read.
    let section = SectionEntry::new(0, 0, 4);
    assert_eq!(NativeEntry::new(&bytes, &section, &mut pool).unwrap().len(), 1);
    let section = SectionEntry::new(0, 0, 12);
    assert!(matches!(NativeEntry::new(&bytes, &section, &mut pool), Err(Error::Io(_))));
}

#[test]
fn publics_and_pubvars_tables() {
    let mut pool = pool();
    let (h, s) = whole(&words(&[0x100, 0, 0x200, 8]));
    let publics = SMXPublicTable::new(&h, &s, &mut pool).unwrap();
    assert_eq!(publics.size(), 2);
    assert_eq!(publics.get_entry(1).address, 0x200);
    assert_eq!(publics.get_entry(1).name, "three");
    assert_eq!(publics.entries_ref()[0].name, "one");
    assert_eq!(publics.entries().len(), 2);
    let pubvars = SMXPubvarTable::new(&h, &s, &mut pool).unwrap();
    assert_eq!(pubvars.size(), 2);
    assert_eq!(pubvars.get_entry(0).address, 0x100);
    assert_eq!(pubvars.get_entry(0).name, "one");
    assert_eq!(pubvars.entries()[1].name_offset, 8);
}

#[test]
fn flat_table_of_a_size_that_is_no_multiple_of_its_rows_fails() {
    let mut pool = pool();
    let (h, s) = whole(&[0, 0, 0, 0, 0]);
    assert!(matches!(SMXNativeTable::new(&h, &s, &mut pool), Err(Error::InvalidSize)));
    let (h, s) = whole(&words(&[0, 0, 0]));
    assert!(matches!(SMXPublicTable::new(&h, &s, &mut pool), Err(Error::InvalidSize)));
    let section = SectionEntry::new(0, 0, -8);
    assert!(matches!(PublicEntry::new(&[], &section, &mut pool), Err(Error::InvalidSize)));
}

#[test]
fn flat_table_with_a_name_outside_the_pool_fails() {
    let mut pool = pool();
    let (h, s) = whole(&words(&[0, 14]));
    assert!(matches!(SMXNativeTable::new(&h, &s, &mut pool), Err(Error::InvalidIndex)));
    let (h, s) = whole(&words(&[7, -4]));
    assert!(matches!(SMXPubvarTable::new(&h, &s, &mut pool), Err(Error::InvalidIndex)));
}

#[test]
fn empty_flat_table() {
    let mut pool = pool();
    let (h, s) = whole(&[]);
    assert_eq!(SMXNativeTable::new(&h, &s, &mut pool).unwrap().size(), 0);
}

#[test]
fn called_functions_are_named_by_their_address() {
    let mut table = SMXCalledFunctionsTable::new();
    assert_eq!(table.size(), 0);
    table.add_function(0x1a2b);
    table.add_function(0);
    table.add_function(u32::MAX);
    assert_eq!(table.size(), 3);
    assert_eq!(table.get_entry(0).name, "sub_1a2b");
    assert_eq!(table.get_entry(0).address, 0x1a2b);
    assert_eq!(table.get_entry(1).name, "sub_0");
    assert_eq!(table.entries_ref()[2].name, "sub_ffffffff");
    assert_eq!(table.entries().len(), 3);
    assert_eq!(SMXCalledFunctionsTable::default().size(), 0);
}

#[test]
fn tag_splits_number_and_flags() {
    let entry = TagEntry { tag: 0x4200_0007, name_offset: 0, name: String::from("Float") };
    let tag = Tag::new(entry);
    assert_eq!(tag.id(), 7);
    assert_eq!(tag.value(), 0x4200_0007);
    assert_eq!(tag.flags(), TagFlags::FIXED | TagFlags::STRUCT);
    assert_eq!(tag.name(), "Float");
    assert_eq!(tag.entry().tag, 0x4200_0007);
}

#[test]
fn tag_keeps_the_bits_that_are_no_flags() {
    let tag = Tag::new(TagEntry { tag: 0xffff_ffff, name_offset: 0, name: String::new() });
    assert_eq!(tag.flags(), 0x7e00_0000);
    assert_eq!(tag.id(), 0x81ff_ffff);
    assert_eq!(
        TagEntry::FLAGMASK,
        TagFlags::FIXED
            | TagFlags::FUNCTION
            | TagFlags::OBJECT
            | TagFlags::ENUM
            | TagFlags::METHODMAP
            | TagFlags::STRUCT
    );
}

#[test]
fn tag_table_finds_the_first_tag_of_a_number() {
    let mut pool = pool();
    let (h, s) = whole(&words(&[0x4000_0001, 0, 2, 4, 0x2000_0002, 8]));
    let mut table = SMXTagTable::new(&h, &s, &mut pool).unwrap();
    assert_eq!(table.len(), 3);
    assert!(!table.is_empty());
    assert_eq!(table.find_tag(1).unwrap().name(), "one");
    assert_eq!(table.find_tag(2).unwrap().name(), "two");
    assert_eq!(table.find_tag(2).unwrap().value(), 2);
    assert!(table.find_tag(3).is_none());
    assert_eq!(table.get_entry(2).name(), "three");
    assert_eq!(table.entries().len(), 3);
}

#[test]
fn tag_table_answers_the_same_twice() {
    let mut pool = pool();
    let (h, s) = whole(&words(&[5, 0, 5, 4]));
    let mut table = SMXTagTable::new(&h, &s, &mut pool).unwrap();
    let first = table.find_tag(5).unwrap();
    let second = table.find_tag(5).unwrap();
    assert_eq!(first.name(), "one");
    assert_eq!(second.name(), "one");
    assert!(table.find_tag(6).is_none());
    assert!(table.find_tag(6).is_none());
}

#[test]
fn tag_table_compares_the_low_sixteen_bits_of_the_id() {
    let mut pool = pool();
    let (h, s) = whole(&words(&[0x0001_0009, 0]));
    let mut table = SMXTagTable::new(&h, &s, &mut pool).unwrap();
    assert_eq!(table.find_tag(9).unwrap().name(), "one");
    assert_eq!(table.find_tag(9).unwrap().id(), 0x0001_0009);
}

#[test]
fn empty_tag_table() {
    let mut pool = pool();
    let (h, s) = whole(&[]);
    let mut table = SMXTagTable::new(&h, &s, &mut pool).unwrap();
    assert!(table.is_empty());
    assert!(table.find_tag(0).is_none());
}

#[test]
fn data_header_and_data() {
    let mut image = vec![0xaa, 0xbb];
    image.extend_from_slice(&words(&[3, 64, 12]));
    image.extend_from_slice(&[7, 8, 9, 10]);
    let header = SMXHeader::new(image, 0);
    let section = SectionEntry::new(0, 2, 16);
    let data = SMXDataSection::new(&header, &section).unwrap();
    assert_eq!(data.header(), DataHeader { data_size: 3, memory_size: 64, data_offset: 12 });
    assert_eq!(data.get_data_vec().unwrap(), vec![7, 8, 9]);
}

#[test]
fn data_that_leaves_the_image_is_refused() {
    let (h, s) = whole(&words(&[5, 0, 12]));
    assert!(matches!(SMXDataSection::new(&h, &s).unwrap().get_data_vec(), Err(Error::InvalidSize)));
    let (h, s) = whole(&words(&[0, 0, 13]));
    assert!(matches!(SMXDataSection::new(&h, &s).unwrap().get_data_vec(), Err(Error::InvalidOffset)));
    let (h, s) = whole(&words(&[0, 0, -1]));
    assert!(matches!(SMXDataSection::new(&h, &s).unwrap().get_data_vec(), Err(Error::InvalidOffset)));
    let mut image = vec![0xee];
    image.extend_from_slice(&words(&[0, 0, -1]));
    let header = SMXHeader::new(image, 0);
    let section = SectionEntry::new(0, 1, 12);
    let data = SMXDataSection::new(&header, &section).unwrap();
    assert!(matches!(data.get_data_vec(), Err(Error::OffsetOverflow)));
    let (h, s) = whole(&words(&[-1, 0, 12]));
    assert!(matches!(SMXDataSection::new(&h, &s).unwrap().get_data_vec(), Err(Error::SizeOverflow)));
    let (h, s) = whole(&words(&[0, 0, 12]));
    assert_eq!(SMXDataSection::new(&h, &s).unwrap().get_data_vec().unwrap(), Vec::<u8>::new());
}

#[test]
fn data_section_needs_its_header() {
    let (h, s) = whole(&words(&[0, 0]));
    assert!(matches!(SMXDataSection::new(&h, &s), Err(Error::Io(_))));
    let header = SMXHeader::new(vec![0; 12], 0);
    let section = SectionEntry::new(0, 4, 12);
    assert!(matches!(SMXDataSection::new(&header, &section), Err(Error::InvalidSize)));
}

fn code_header(version: u8, code_offset: i32, code_size: i32) -> Vec<u8> {
    let mut bytes = Vec::new();
    bytes.extend_from_slice(&code_size.to_le_bytes());
    bytes.push(4);
    bytes.push(version);
    bytes.extend_from_slice(&0x0102u16.to_le_bytes());
    bytes.extend_from_slice(&0x40i32.to_le_bytes());
    bytes.extend_from_slice(&code_offset.to_le_bytes());
    bytes
}

#[test]
fn code_header_and_code() {
    let mut image = vec![0; 4];
    image.extend_from_slice(&code_header(9, 16, 2));
    image.extend_from_slice(&[0x2e, 0x30, 0x31]);
    let header = SMXHeader::new(image, 100);
    let section = SectionEntry::new(0, 4, 19);
    let code = SMXCodeV1Section::new(&header, &section).unwrap();
    assert_eq!(
        code.header(),
        CodeV1Header {
            code_size: 2,
            cell_size: 4,
            code_version: 9,
            flags: 0x0102,
            main: 0x40,
            code_offset: 16,
            features: 0,
        }
    );
    assert_eq!(code.get_data_vec().unwrap(), vec![0x2e, 0x30]);
    assert_eq!(code.code_start().unwrap(), 116);
}

#[test]
fn code_header_holds_features_from_version_thirteen_on() {
    let mut bytes = code_header(13, 20, 0);
    bytes.extend_from_slice(&5i32.to_le_bytes());
    assert_eq!(CodeV1Header::new(&bytes).unwrap().features, 5);
    assert!(matches!(CodeV1Header::new(&code_header(13, 20, 0)), Err(Error::Io(_))));
    let mut earlier = code_header(12, 16, 0);
    earlier.extend_from_slice(&5i32.to_le_bytes());
    assert_eq!(CodeV1Header::new(&earlier).unwrap().features, 0);
    assert!(matches!(CodeV1Header::new(&code_header(12, 16, 0)[..15]), Err(Error::Io(_))));
}

#[test]
fn code_that_leaves_the_image_is_refused() {
    let (h, s) = whole(&code_header(9, 16, 1));
    assert!(matches!(SMXCodeV1Section::new(&h, &s).unwrap().get_data_vec(), Err(Error::InvalidSize)));
    let (h, s) = whole(&code_header(9, 17, 0));
    assert!(matches!(SMXCodeV1Section::new(&h, &s).unwrap().get_data_vec(), Err(Error::InvalidOffset)));
    let (h, s) = whole(&code_header(9, -1, 0));
    assert!(matches!(SMXCodeV1Section::new(&h, &s).unwrap().get_data_vec(), Err(Error::OffsetOverflow)));
    let (h, s) = whole(&code_header(9, 16, -1));
    assert!(matches!(SMXCodeV1Section::new(&h, &s).unwrap().get_data_vec(), Err(Error::SizeOverflow)));
    let (h, s) = whole(&code_header(9, 8, i32::MAX));
    assert!(matches!(SMXCodeV1Section::new(&h, &s).unwrap().get_data_vec(), Err(Error::SizeOverflow)));
}

#[test]
fn code_start_that_is_no_offset_fails() {
    let header = SMXHeader::new(code_header(9, i32::MAX, 0), 1);
    let section = SectionEntry::new(0, 0, 16);
    let code = SMXCodeV1Section::new(&header, &section).unwrap();
    assert!(matches!(code.code_start(), Err(Error::OffsetOverflow)));
    let header = SMXHeader::new(code_header(9, -5, 0), 3);
    let code = SMXCodeV1Section::new(&header, &section).unwrap();
    assert_eq!(code.code_start().unwrap(), -2);
}
