use smxdasm::errors::Error;
use smxdasm::file::SMXFile;
use smxdasm::headers::{SMXHeader, SectionEntry};
use smxdasm::rtti::decoder::{SMXRTTIData, TypeBuilder};
use smxdasm::rtti::tables::{
    SMXRTTIClassDefTable, SMXRTTIEnumStructTable, SMXRTTIEnumTable, SMXRTTITypedefTable,
    SMXRTTITypesetTable,
};
use smxdasm::rtti::CB;
use smxdasm::sections::SMXNameTable;

fn whole(bytes: &[u8]) -> (SMXHeader, SectionEntry) {
    (SMXHeader::new(bytes.to_vec(), 0), SectionEntry::new(0, 0, bytes.len() as i32))
}

fn names(bytes: &[u8]) -> SMXNameTable {
    let (header, section) = whole(bytes);
    SMXNameTable::new(&header, &section).unwrap()
}

fn row_table(row_size: u32, rows: &[Vec<i32>], padding: usize) -> Vec<u8> {
    let mut bytes = Vec::new();
    bytes.extend_from_slice(&12u32.to_le_bytes());
    bytes.extend_from_slice(&row_size.to_le_bytes());
    bytes.extend_from_slice(&(rows.len() as u32).to_le_bytes());
    for row in rows {
        for field in row {
            bytes.extend_from_slice(&field.to_le_bytes());
        }
        for _ in 0..padding {
            bytes.push(0);
        }
    }
    bytes
}

// Names: "Color" at 0, "Handler" at 6, "Callbacks" at 14, "Point" at 24, "Pair" at 30.
fn pool() -> SMXNameTable {
    names(b"Color\0Handler\0Callbacks\0Point\0Pair\0")
}

fn file_with_tables() -> SMXFile {
    let mut pool = pool();
    let mut file = SMXFile::new();
    let (h, s) = whole(&row_table(16, &[vec![0], vec![24]], 12));
    file.rtti_enums = Some(SMXRTTIEnumTable::new(&h, &s, &mut pool).unwrap());
    let (h, s) = whole(&row_table(8, &[vec![6, 0x60]], 0));
    file.rtti_typedefs = Some(SMXRTTITypedefTable::new(&h, &s, &mut pool).unwrap());
    let (h, s) = whole(&row_table(8, &[vec![14, 0]], 0));
    file.rtti_typesets = Some(SMXRTTITypesetTable::new(&h, &s, &mut pool).unwrap());
    let (h, s) = whole(&row_table(28, &[vec![0, 24, 0]], 16));
    file.rtti_classdefs = Some(SMXRTTIClassDefTable::new(&h, &s, &mut pool).unwrap());
    let (h, s) = whole(&row_table(12, &[vec![30, 0, 8]], 0));
    file.rtti_enum_structs = Some(SMXRTTIEnumStructTable::new(&h, &s, &mut pool).unwrap());
    file
}

fn decode_new(bytes: &[u8]) -> Result<String, Error> {
    let file = SMXFile::new();
    let blob = bytes.to_vec();
    let mut builder = TypeBuilder::new(&file, &blob, 0);
    builder.decode_new()
}

fn decode_function(bytes: &[u8]) -> Result<String, Error> {
    let file = SMXFile::new();
    let blob = bytes.to_vec();
    let mut builder = TypeBuilder::new(&file, &blob, 0);
    builder.decode_function()
}

fn data(file: SMXFile, blob: &[u8]) -> SMXRTTIData {
    let (header, section) = whole(blob);
    SMXRTTIData::new(file, &header, &section).unwrap()
}

#[test]
fn varint_of_one_byte() {
    let mut offset = 0;
    assert_eq!(CB::decode_u32(&[0x05], &mut offset).unwrap(), 5);
    assert_eq!(offset, 1);
}

#[test]
fn varint_of_two_bytes() {
    let mut offset = 0;
    assert_eq!(CB::decode_u32(&[0x81, 0x01], &mut offset).unwrap(), 129);
    assert_eq!(offset, 2);
}

#[test]
fn varint_uses_seven_bits_of_each_byte() {
    let mut offset = 0;
    assert_eq!(CB::decode_u32(&[0x80, 0x02], &mut offset).unwrap(), 256);
    let mut offset = 0;
    assert_eq!(CB::decode_u32(&[0xff, 0xff, 0x03], &mut offset).unwrap(), 0xffff);
    assert_eq!(offset, 3);
    let mut offset = 0;
    assert_eq!(CB::decode_u32(&[0x7f], &mut offset).unwrap(), 127);
}

#[test]
fn varint_starts_at_the_offset_and_stops_at_its_last_byte() {
    let mut offset = 1;
    assert_eq!(CB::decode_u32(&[0xff, 0x82, 0x01, 0x09], &mut offset).unwrap(), 130);
    assert_eq!(offset, 3);
}

#[test]
fn varint_of_five_bytes_fills_thirty_two_bits() {
    let mut offset = 0;
    assert_eq!(CB::decode_u32(&[0xff, 0xff, 0xff, 0xff, 0x07], &mut offset).unwrap(), i32::MAX);
    let mut offset = 0;
    assert_eq!(CB::decode_u32(&[0xff, 0xff, 0xff, 0xff, 0x0f], &mut offset).unwrap(), -1);
    let mut offset = 0;
    assert_eq!(CB::decode_u32(&[0x80, 0x80, 0x80, 0x80, 0x08], &mut offset).unwrap(), i32::MIN);
    assert_eq!(offset, 5);
}

#[test]
fn varint_drops_what_lies_above_thirty_two_bits() {
    let mut offset = 0;
    assert_eq!(CB::decode_u32(&[0x81, 0x80, 0x80, 0x80, 0x10], &mut offset).unwrap(), 1);
    let mut offset = 0;
    assert_eq!(CB::decode_u32(&[0x82, 0x80, 0x80, 0x80, 0x80, 0x01], &mut offset).unwrap(), 2);
    assert_eq!(offset, 6);
}

#[test]
fn varint_that_runs_off_the_end_fails() {
    let mut offset = 0;
    assert!(matches!(CB::decode_u32(&[0x81], &mut offset), Err(Error::InvalidOffset)));
    assert_eq!(offset, 0);
    let mut offset = 0;
    assert!(matches!(CB::decode_u32(&[], &mut offset), Err(Error::InvalidOffset)));
    let mut offset = 3;
    assert!(matches!(CB::decode_u32(&[1, 2, 3], &mut offset), Err(Error::InvalidOffset)));
    let mut offset = -1;
    assert!(matches!(CB::decode_u32(&[1, 2, 3], &mut offset), Err(Error::InvalidOffset)));
    assert_eq!(offset, -1);
}

#[test]
fn decodes_primitive_types() {
    assert_eq!(decode_new(&[CB::BOOL]).unwrap(), "bool");
    assert_eq!(decode_new(&[CB::INT32]).unwrap(), "int");
    assert_eq!(decode_new(&[CB::FLOAT32]).unwrap(), "float");
    assert_eq!(decode_new(&[CB::CHAR8]).unwrap(), "char");
    assert_eq!(decode_new(&[CB::ANY]).unwrap(), "any");
    assert_eq!(decode_new(&[CB::TOPFUNCTION]).unwrap(), "Function");
}

#[test]
fn decodes_int() {
    assert_eq!(decode_new(&[CB::INT32]).unwrap(), "int");
}

#[test]
fn decodes_array_of_int() {
    assert_eq!(decode_new(&[CB::ARRAY, CB::INT32]).unwrap(), "int[]");
}

#[test]
fn decodes_const_int() {
    assert_eq!(decode_new(&[CB::CONST, CB::INT32]).unwrap(), "const int");
}

#[test]
fn decodes_fixed_array_of_int() {
    assert_eq!(decode_new(&[CB::FIXEDARRAY, 4, CB::INT32]).unwrap(), "int[4]");
}

#[test]
fn decodes_fixed_array_with_a_long_size() {
    assert_eq!(decode_new(&[CB::FIXEDARRAY, 0x81, 0x01, CB::CHAR8]).unwrap(), "char[129]");
    assert_eq!(
        decode_new(&[CB::FIXEDARRAY, 0xff, 0xff, 0xff, 0xff, 0x0f, CB::CHAR8]).unwrap(),
        "char[-1]"
    );
}

#[test]
fn decodes_nested_arrays() {
    assert_eq!(decode_new(&[CB::ARRAY, CB::ARRAY, CB::FLOAT32]).unwrap(), "float[][]");
    assert_eq!(decode_new(&[CB::ARRAY, CB::FIXEDARRAY, 3, CB::INT32]).unwrap(), "int[3][]");
}

#[test]
fn const_inside_an_array_marks_the_whole_type_once() {
    assert_eq!(decode_new(&[CB::ARRAY, CB::CONST, CB::INT32]).unwrap(), "const int[]");
    assert_eq!(decode_new(&[CB::CONST, CB::ARRAY, CB::INT32]).unwrap(), "const int[]");
    assert_eq!(decode_new(&[CB::CONST, CB::ARRAY, CB::CONST, CB::INT32]).unwrap(), "const int[]");
}

#[test]
fn only_one_const_marker_is_read_before_a_tag() {
    assert_eq!(decode_new(&[CB::CONST, CB::CONST, CB::INT32]).unwrap(), "const unknown type code: 115");
}

#[test]
fn unknown_tag_is_named_in_the_text() {
    assert_eq!(decode_new(&[0x99]).unwrap(), "unknown type code: 153");
    assert_eq!(decode_new(&[0]).unwrap(), "unknown type code: 0");
    assert_eq!(decode_new(&[CB::VOID]).unwrap(), "unknown type code: 112");
    assert_eq!(decode_new(&[CB::ARRAY, 0xff]).unwrap(), "unknown type code: 255[]");
}

#[test]
fn decode_without_a_byte_fails() {
    assert!(matches!(decode_new(&[]), Err(Error::InvalidOffset)));
    assert!(matches!(decode_new(&[CB::CONST]), Err(Error::InvalidOffset)));
    assert!(matches!(decode_new(&[CB::ARRAY]), Err(Error::InvalidOffset)));
    assert!(matches!(decode_new(&[CB::FIXEDARRAY, 4]), Err(Error::InvalidOffset)));
    assert!(matches!(decode_new(&[CB::FIXEDARRAY, 0x80]), Err(Error::InvalidOffset)));
    assert!(matches!(decode_new(&[CB::ENUM]), Err(Error::InvalidOffset)));
}

#[test]
fn decode_at_a_bad_offset_fails() {
    let file = SMXFile::new();
    let blob = vec![CB::INT32];
    assert!(matches!(TypeBuilder::new(&file, &blob, 1).decode_new(), Err(Error::InvalidOffset)));
    assert!(matches!(TypeBuilder::new(&file, &blob, -1).decode_new(), Err(Error::InvalidOffset)));
    assert!(matches!(TypeBuilder::new(&file, &blob, i32::MAX).decode(), Err(Error::InvalidOffset)));
    assert!(matches!(
        TypeBuilder::new(&file, &blob, 7).decode_function(),
        Err(Error::InvalidOffset)
    ));
}

#[test]
fn decode_moves_the_offset_behind_the_type() {
    let file = SMXFile::new();
    let blob = vec![CB::ARRAY, CB::INT32, CB::CONST, CB::FLOAT32, CB::BOOL];
    let mut builder = TypeBuilder::new(&file, &blob, 0);
    assert_eq!(builder.offset(), 0);
    assert_eq!(builder.decode_new().unwrap(), "int[]");
    assert_eq!(builder.offset(), 2);
    assert_eq!(builder.decode_new().unwrap(), "const float");
    assert_eq!(builder.offset(), 4);
    assert_eq!(builder.decode_new().unwrap(), "bool");
    assert_eq!(builder.offset(), 5);
    assert!(matches!(builder.decode_new(), Err(Error::InvalidOffset)));
}

#[test]
fn failed_decoding_leaves_the_decoder_where_it_was() {
    let file = SMXFile::new();
    let blob = vec![CB::INT32, CB::CONST, CB::ARRAY, CB::FIXEDARRAY, 0x85];
    let mut builder = TypeBuilder::new(&file, &blob, 1);
    assert!(matches!(builder.decode_new(), Err(Error::InvalidOffset)));
    assert_eq!(builder.offset(), 1);
    assert!(matches!(builder.decode(), Err(Error::InvalidOffset)));
    assert_eq!(builder.offset(), 1);
    assert!(matches!(builder.decode_function(), Err(Error::InvalidOffset)));
    assert_eq!(builder.offset(), 1);
    assert_eq!(builder.match_byte(CB::CONST).unwrap(), true);
    assert_eq!(builder.offset(), 2);
}

#[test]
fn decode_new_does_not_carry_const_to_the_next_type() {
    let file = SMXFile::new();
    let blob = vec![CB::CONST, CB::INT32, CB::INT32];
    let mut builder = TypeBuilder::new(&file, &blob, 0);
    assert_eq!(builder.decode_new().unwrap(), "const int");
    assert_eq!(builder.decode_new().unwrap(), "int");
}

#[test]
fn decode_leaves_const_to_its_caller() {
    let file = SMXFile::new();
    let blob = vec![CB::CONST, CB::INT32];
    let mut builder = TypeBuilder::new(&file, &blob, 0);
    assert_eq!(builder.decode().unwrap(), "int");
    assert_eq!(builder.offset(), 2);
}

#[test]
fn match_byte_consumes_only_the_byte_it_is_asked_for() {
    let file = SMXFile::new();
    let blob = vec![CB::BYREF, CB::INT32];
    let mut builder = TypeBuilder::new(&file, &blob, 0);
    assert_eq!(builder.match_byte(CB::CONST).unwrap(), false);
    assert_eq!(builder.offset(), 0);
    assert_eq!(builder.match_byte(CB::BYREF).unwrap(), true);
    assert_eq!(builder.offset(), 1);
    assert_eq!(builder.match_byte(CB::BYREF).unwrap(), false);
    assert_eq!(builder.match_byte(CB::INT32).unwrap(), true);
    assert!(matches!(builder.match_byte(CB::INT32), Err(Error::InvalidOffset)));
    assert_eq!(builder.offset(), 2);
}

#[test]
fn function_of_two_arguments_returning_void() {
    let bytes = [2, CB::VOID, CB::INT32, CB::BYREF, CB::FLOAT32];
    assert_eq!(decode_function(&bytes).unwrap(), "function void (int, float&)");
}

#[test]
fn variadic_function() {
    let bytes = [1, CB::VARIADIC, CB::CHAR8, CB::ANY];
    assert_eq!(decode_function(&bytes).unwrap(), "function char (any...)");
}

#[test]
fn function_without_arguments() {
    assert_eq!(decode_function(&[0, CB::VOID]).unwrap(), "function void ()");
    assert_eq!(decode_function(&[0, CB::VARIADIC, CB::INT32]).unwrap(), "function int (...)");
}

#[test]
fn function_with_const_and_array_arguments() {
    let bytes = [
        3,
        CB::CONST,
        CB::INT32,
        CB::CONST,
        CB::ARRAY,
        CB::CHAR8,
        CB::BYREF,
        CB::CONST,
        CB::FLOAT32,
        CB::FIXEDARRAY,
        2,
        CB::ANY,
    ];
    assert_eq!(
        decode_function(&bytes).unwrap(),
        "function const int (const char[], const float&, any[2])"
    );
}

#[test]
fn function_as_a_type_of_an_argument() {
    let bytes = [1, CB::VOID, CB::FUNCTION, 1, CB::INT32, CB::BOOL];
    assert_eq!(decode_function(&bytes).unwrap(), "function void (function int (bool))");
    let nested = [CB::ARRAY, CB::FUNCTION, 0, CB::VOID];
    assert_eq!(decode_new(&nested).unwrap(), "function void ()[]");
}

#[test]
fn const_in_a_function_does_not_reach_the_type_around_it() {
    let bytes = [CB::ARRAY, CB::FUNCTION, 1, CB::VOID, CB::CONST, CB::INT32];
    assert_eq!(decode_new(&bytes).unwrap(), "function void (const int)[]");
}

#[test]
fn function_that_runs_off_the_end_fails() {
    assert!(matches!(decode_function(&[]), Err(Error::InvalidOffset)));
    assert!(matches!(decode_function(&[1]), Err(Error::InvalidOffset)));
    assert!(matches!(decode_function(&[0, CB::VARIADIC]), Err(Error::InvalidOffset)));
    assert!(matches!(decode_function(&[1, CB::VOID]), Err(Error::InvalidOffset)));
    assert!(matches!(decode_function(&[2, CB::VOID, CB::INT32]), Err(Error::InvalidOffset)));
    assert!(matches!(decode_function(&[1, CB::VOID, CB::BYREF]), Err(Error::InvalidOffset)));
}

#[test]
fn void_is_special_only_as_a_return_type() {
    assert_eq!(
        decode_function(&[1, CB::INT32, CB::VOID]).unwrap(),
        "function int (unknown type code: 112)"
    );
}

#[test]
fn references_are_resolved_by_index() {
    let file = file_with_tables();
    let blob = vec![
        CB::ENUM,
        1,
        CB::TYPEDEF,
        0,
        CB::TYPESET,
        0,
        CB::STRUCT,
        0,
        CB::ENUMSTRUCT,
        0,
        CB::ENUM,
        0,
    ];
    let mut builder = TypeBuilder::new(&file, &blob, 0);
    assert_eq!(builder.decode_new().unwrap(), "Point");
    assert_eq!(builder.decode_new().unwrap(), "Handler");
    assert_eq!(builder.decode_new().unwrap(), "Callbacks");
    assert_eq!(builder.decode_new().unwrap(), "Point");
    assert_eq!(builder.decode_new().unwrap(), "Pair");
    assert_eq!(builder.decode_new().unwrap(), "Color");
    assert_eq!(builder.offset(), 12);
}

#[test]
fn references_combine_with_arrays_and_const() {
    let file = file_with_tables();
    let blob = vec![CB::CONST, CB::FIXEDARRAY, 8, CB::ENUM, 0];
    assert_eq!(TypeBuilder::new(&file, &blob, 0).decode_new().unwrap(), "const Color[8]");
}

#[test]
fn reference_to_a_missing_row_fails() {
    let file = file_with_tables();
    let blob = vec![CB::ENUM, 2, CB::TYPEDEF, 1, CB::ENUM, 0xff, 0xff, 0xff, 0xff, 0x0f];
    assert!(matches!(TypeBuilder::new(&file, &blob, 0).decode_new(), Err(Error::InvalidIndex)));
    assert!(matches!(TypeBuilder::new(&file, &blob, 2).decode_new(), Err(Error::InvalidIndex)));
    assert!(matches!(TypeBuilder::new(&file, &blob, 4).decode_new(), Err(Error::InvalidIndex)));
}

#[test]
fn reference_into_a_missing_table_fails() {
    let file = SMXFile::new();
    for tag in [CB::ENUM, CB::TYPEDEF, CB::TYPESET, CB::STRUCT, CB::ENUMSTRUCT] {
        let blob = vec![tag, 0];
        assert!(matches!(TypeBuilder::new(&file, &blob, 0).decode_new(), Err(Error::InvalidIndex)));
    }
}

#[test]
fn type_from_inline_id() {
    let rtti = data(SMXFile::new(), &[]);
    assert_eq!(rtti.type_from_id(0x60).unwrap(), "int");
    assert_eq!(rtti.type_from_id(0x6310).unwrap(), "int[]");
    assert_eq!(rtti.type_from_id(0x0c0_4300).unwrap(), "float[4]");
    assert_eq!(rtti.type_from_id(0x0e3_1730).unwrap(), "const char[]");
}

#[test]
fn type_from_inline_id_with_a_reference() {
    let rtti = data(file_with_tables(), &[]);
    assert_eq!(rtti.type_from_id(0x1420).unwrap(), "Point");
    assert_eq!(rtti.type_from_id(0x420).unwrap(), "Color");
    assert!(matches!(rtti.type_from_id(0x2420), Err(Error::InvalidIndex)));
}

#[test]
fn type_from_inline_id_that_needs_more_than_four_bytes_fails() {
    let rtti = data(SMXFile::new(), &[CB::INT32]);
    assert_eq!(rtti.type_from_id(0x1313_1310).unwrap(), "bool[][][]");
    // Payload bytes 30 80 80 08: a fixed array whose element type would be the fifth byte.
    assert!(matches!(rtti.type_from_id(i32::MIN | 0x0808_0300), Err(Error::InvalidOffset)));
}

#[test]
fn type_from_complex_id() {
    let rtti = data(SMXFile::new(), &[CB::INT32, CB::ARRAY, CB::CONST, CB::FLOAT32]);
    assert_eq!(rtti.type_from_id(0x01).unwrap(), "int");
    assert_eq!(rtti.type_from_id(0x11).unwrap(), "const float[]");
    assert_eq!(rtti.type_from_id(0x31).unwrap(), "float");
    assert!(matches!(rtti.type_from_id(0x41), Err(Error::InvalidOffset)));
}

#[test]
fn type_from_id_of_an_unknown_kind() {
    let rtti = data(SMXFile::new(), &[CB::INT32]);
    assert_eq!(rtti.type_from_id(0x25).unwrap(), "Unknown type_id kind: 5");
    assert_eq!(rtti.type_from_id(2).unwrap(), "Unknown type_id kind: 2");
    assert_eq!(rtti.type_from_id(-1).unwrap(), "Unknown type_id kind: 15");
}

#[test]
fn type_from_a_negative_id_uses_its_bit_pattern() {
    let rtti = data(SMXFile::new(), &[CB::INT32]);
    // 0x8000_0060: inline, payload bytes 06 00 00 08.
    assert_eq!(rtti.type_from_id(i32::MIN | 0x60).unwrap(), "int");
    // 0xf000_0001: complex, offset 0x0f00_0000, outside the bytes.
    assert!(matches!(rtti.type_from_id(-0x1000_0000 + 1), Err(Error::InvalidOffset)));
}

#[test]
fn function_type_from_offset_reads_at_the_offset() {
    let blob = [0xff, 2, CB::VOID, CB::INT32, CB::BYREF, CB::FLOAT32];
    let rtti = data(SMXFile::new(), &blob);
    assert_eq!(rtti.function_type_from_offset(1).unwrap(), "function void (int, float&)");
    assert!(matches!(rtti.function_type_from_offset(6), Err(Error::InvalidOffset)));
    assert!(matches!(rtti.function_type_from_offset(-3), Err(Error::InvalidOffset)));
}

#[test]
fn typeset_types_follow_their_count() {
    let blob = [2, CB::INT32, CB::ARRAY, CB::FLOAT32, CB::BOOL];
    let rtti = data(SMXFile::new(), &blob);
    assert_eq!(rtti.typeset_types_from_offset(0).unwrap(), vec!["int", "float[]"]);
}

#[test]
fn typeset_of_functions() {
    let blob =
        [0, 2, CB::FUNCTION, 0, CB::VOID, CB::CONST, CB::FUNCTION, 1, CB::VARIADIC, CB::INT32, CB::ANY];
    let rtti = data(SMXFile::new(), &blob);
    assert_eq!(
        rtti.typeset_types_from_offset(1).unwrap(),
        vec!["function void ()", "const function int (any...)"]
    );
}

#[test]
fn typeset_without_types() {
    let rtti = data(SMXFile::new(), &[0, 0xff, 0xff, 0xff, 0xff, 0x0f]);
    assert_eq!(rtti.typeset_types_from_offset(0).unwrap(), Vec::<String>::new());
    assert_eq!(rtti.typeset_types_from_offset(1).unwrap(), Vec::<String>::new());
}

#[test]
fn typeset_that_runs_off_the_end_fails() {
    let rtti = data(SMXFile::new(), &[3, CB::INT32, CB::INT32]);
    assert!(matches!(rtti.typeset_types_from_offset(0), Err(Error::InvalidOffset)));
    assert!(matches!(rtti.typeset_types_from_offset(3), Err(Error::InvalidOffset)));
}

#[test]
fn build_type_name_moves_the_offset() {
    let rtti = data(SMXFile::new(), &[CB::ARRAY, CB::INT32, CB::BOOL]);
    let mut offset = 0;
    assert_eq!(rtti.build_type_name(&mut offset).unwrap(), "int[]");
    assert_eq!(offset, 2);
    assert_eq!(rtti.build_type_name(&mut offset).unwrap(), "bool");
    assert_eq!(offset, 3);
}

#[test]
fn same_bytes_decode_to_the_same_text() {
    let rtti = data(SMXFile::new(), &[CB::FIXEDARRAY, 9, CB::CONST, CB::CHAR8]);
    let first = rtti.type_from_id(0x01).unwrap();
    let second = rtti.type_from_id(0x01).unwrap();
    assert_eq!(first, "const char[9]");
    assert_eq!(first, second);
}

#[test]
fn rtti_data_of_a_section_outside_the_image_is_refused() {
    let header = SMXHeader::new(vec![CB::INT32], 0);
    let section = SectionEntry::new(0, 0, 2);
    assert!(matches!(SMXRTTIData::new(SMXFile::new(), &header, &section), Err(Error::InvalidSize)));
}
