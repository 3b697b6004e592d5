//! The records of the sections that carry no header of their own, and the
//! headers of the code, data and debug sections.

use vstd::prelude::*;
use crate::errors::Error;
use crate::headers::SectionEntry;
use crate::reader::{le_i32, le_u16, le_u32, readable, ByteCursor};
use crate::records::{
    name_last_fault, plain_outcome, read_plain_rows, read_rows, rows_of, rows_outcome,
    PlainRecord, Record, RowFault,
};
use crate::sections::names::{name_text, SMXNameTable};

verus! {

/// Whether `r` is the outcome of decoding a section of `size` bytes as a
/// run of records: `InvalidSize` where the size is not a multiple of the
/// width of a record; else the records from the first byte on, or the error
/// of the first that cannot be decoded.
pub open spec fn flat_outcome<R: Record>(
    r: Result<Seq<R>, Error>,
    data: Seq<u8>,
    size: int,
    names: Seq<u8>,
) -> bool {
    if size < 0 || size % (R::width() as int) != 0 {
        r == Err::<Seq<R>, Error>(Error::InvalidSize)
    } else {
        rows_outcome(r, data, 0, size / (R::width() as int), names)
    }
}

/// Whether `r` is the outcome of decoding a section of `size` bytes as a
/// run of plain records: `InvalidSize` where the size is not a multiple of
/// the width of a record; else the records from the first byte on, or the
/// reader's error where the bytes end too early.
pub open spec fn plain_flat_outcome<R: PlainRecord>(
    r: Result<Seq<R>, Error>,
    data: Seq<u8>,
    size: int,
) -> bool {
    if size < 0 || size % (R::width() as int) != 0 {
        r == Err::<Seq<R>, Error>(Error::InvalidSize)
    } else {
        plain_outcome(r, data, 0, size / (R::width() as int))
    }
}

/// Decodes `data` as the records of a section of the given size.
fn read_flat<R: Record>(data: &[u8], size: i32, width: i32, names: &mut SMXNameTable) -> (r: Result<
    Vec<R>,
    Error,
>)
    requires
        old(names).wf(),
        0 < width == R::width(),
    ensures
        final(names).wf(),
        final(names).bytes() == old(names).bytes(),
        flat_outcome(rows_of(r), data@, size as int, old(names).bytes()),
{
    if size < 0 || size % width != 0 {
        return Err(Error::InvalidSize);
    }
    let count = (size / width) as u32;
    assert(count * R::width() <= i32::MAX) by (nonlinear_arith)
        requires
            count == size / width,
            0 < width == R::width(),
            0 <= size <= i32::MAX,
    ;
    let mut cursor = ByteCursor::new(data);
    read_rows::<R>(&mut cursor, count, names)
}

/// Decodes `data` as the plain records of a section of the given size.
fn read_plain_flat<R: PlainRecord>(data: &[u8], size: i32, width: i32) -> (r: Result<Vec<R>, Error>)
    requires
        0 < width == R::width(),
    ensures
        plain_flat_outcome(rows_of(r), data@, size as int),
{
    if size < 0 || size % width != 0 {
        return Err(Error::InvalidSize);
    }
    let count = (size / width) as u32;
    assert(count * R::width() <= i32::MAX) by (nonlinear_arith)
        requires
            count == size / width,
            0 < width == R::width(),
            0 <= size <= i32::MAX,
    ;
    let mut cursor = ByteCursor::new(data);
    read_plain_rows::<R>(&mut cursor, count)
}

/// A native function that the image calls: its name.
#[derive(Debug)]
pub struct NativeEntry {
    pub name_offset: i32,
    pub name: String,
}

impl Clone for NativeEntry {
    fn clone(&self) -> (r: Self)
        ensures
            r == *self,
    {
        NativeEntry { name_offset: self.name_offset, name: self.name.clone() }
    }
}

impl Record for NativeEntry {
    open spec fn width() -> nat {
        4
    }

    open spec fn fault_at(data: Seq<u8>, pos: int, names: Seq<u8>) -> Option<RowFault> {
        name_last_fault(data, pos, names, 0, 4)
    }

    open spec fn decodes(&self, data: Seq<u8>, pos: int, names: Seq<u8>) -> bool {
        &&& self.name_offset == le_i32(data, pos)
        &&& self.name@ == name_text(names, self.name_offset as int)
    }

    fn read(cursor: &mut ByteCursor, names: &mut SMXNameTable) -> (r: Result<Self, Error>) {
        let name_offset = cursor.read_i32()?;
        let name = names.string_at(name_offset)?;
        Ok(NativeEntry { name_offset, name })
    }
}

impl NativeEntry {
    /// The number of bytes that one record takes.
    pub const SIZE: i32 = 4;

    /// Decodes `data` as the records of the given section, each name looked
    /// up in `names`.
    pub fn new(data: &[u8], section: &SectionEntry, names: &mut SMXNameTable) -> (r: Result<
        Vec<Self>,
        Error,
    >)
        requires
            old(names).wf(),
        ensures
            final(names).wf(),
            final(names).bytes() == old(names).bytes(),
            flat_outcome(rows_of(r), data@, section.size as int, old(names).bytes()),
    {
        read_flat::<Self>(data, section.size, Self::SIZE, names)
    }
}

/// A public function: the address of its code and its name.
#[derive(Debug)]
pub struct PublicEntry {
    pub address: u32,
    pub name_offset: i32,
    pub name: String,
}

impl Clone for PublicEntry {
    fn clone(&self) -> (r: Self)
        ensures
            r == *self,
    {
        PublicEntry {
            address: self.address,
            name_offset: self.name_offset,
            name: self.name.clone(),
        }
    }
}

impl Record for PublicEntry {
    open spec fn width() -> nat {
        8
    }

    open spec fn fault_at(data: Seq<u8>, pos: int, names: Seq<u8>) -> Option<RowFault> {
        name_last_fault(data, pos, names, 4, 8)
    }

    open spec fn decodes(&self, data: Seq<u8>, pos: int, names: Seq<u8>) -> bool {
        &&& self.address == le_u32(data, pos)
        &&& self.name_offset == le_i32(data, pos + 4)
        &&& self.name@ == name_text(names, self.name_offset as int)
    }

    fn read(cursor: &mut ByteCursor, names: &mut SMXNameTable) -> (r: Result<Self, Error>) {
        let address = cursor.read_u32()?;
        let name_offset = cursor.read_i32()?;
        let name = names.string_at(name_offset)?;
        Ok(PublicEntry { address, name_offset, name })
    }
}

impl PublicEntry {
    /// The number of bytes that one record takes.
    pub const SIZE: i32 = 8;

    /// Decodes `data` as the records of the given section, each name looked
    /// up in `names`.
    pub fn new(data: &[u8], section: &SectionEntry, names: &mut SMXNameTable) -> (r: Result<
        Vec<Self>,
        Error,
    >)
        requires
            old(names).wf(),
        ensures
            final(names).wf(),
            final(names).bytes() == old(names).bytes(),
            flat_outcome(rows_of(r), data@, section.size as int, old(names).bytes()),
    {
        read_flat::<Self>(data, section.size, Self::SIZE, names)
    }
}

/// A public variable: its address in the data and its name.
#[derive(Debug)]
pub struct PubvarEntry {
    pub address: u32,
    pub name_offset: i32,
    pub name: String,
}

impl Clone for PubvarEntry {
    fn clone(&self) -> (r: Self)
        ensures
            r == *self,
    {
        PubvarEntry {
            address: self.address,
            name_offset: self.name_offset,
            name: self.name.clone(),
        }
    }
}

impl Record for PubvarEntry {
    open spec fn width() -> nat {
        8
    }

    open spec fn fault_at(data: Seq<u8>, pos: int, names: Seq<u8>) -> Option<RowFault> {
        name_last_fault(data, pos, names, 4, 8)
    }

    open spec fn decodes(&self, data: Seq<u8>, pos: int, names: Seq<u8>) -> bool {
        &&& self.address == le_u32(data, pos)
        &&& self.name_offset == le_i32(data, pos + 4)
        &&& self.name@ == name_text(names, self.name_offset as int)
    }

    fn read(cursor: &mut ByteCursor, names: &mut SMXNameTable) -> (r: Result<Self, Error>) {
        let address = cursor.read_u32()?;
        let name_offset = cursor.read_i32()?;
        let name = names.string_at(name_offset)?;
        Ok(PubvarEntry { address, name_offset, name })
    }
}

impl PubvarEntry {
    /// The number of bytes that one record takes.
    pub const SIZE: i32 = 8;

    /// Decodes `data` as the records of the given section, each name looked
    /// up in `names`.
    pub fn new(data: &[u8], section: &SectionEntry, names: &mut SMXNameTable) -> (r: Result<
        Vec<Self>,
        Error,
    >)
        requires
            old(names).wf(),
        ensures
            final(names).wf(),
            final(names).bytes() == old(names).bytes(),
            flat_outcome(rows_of(r), data@, section.size as int, old(names).bytes()),
    {
        read_flat::<Self>(data, section.size, Self::SIZE, names)
    }
}

/// A tag: its number, with its flags in the upper bits, and its name.
#[derive(Debug)]
pub struct TagEntry {
    pub tag: u32,
    pub name_offset: i32,
    pub name: String,
}

impl Clone for TagEntry {
    fn clone(&self) -> (r: Self)
        ensures
            r == *self,
    {
        TagEntry { tag: self.tag, name_offset: self.name_offset, name: self.name.clone() }
    }
}

impl Record for TagEntry {
    open spec fn width() -> nat {
        8
    }

    open spec fn fault_at(data: Seq<u8>, pos: int, names: Seq<u8>) -> Option<RowFault> {
        name_last_fault(data, pos, names, 4, 8)
    }

    open spec fn decodes(&self, data: Seq<u8>, pos: int, names: Seq<u8>) -> bool {
        &&& self.tag == le_u32(data, pos)
        &&& self.name_offset == le_i32(data, pos + 4)
        &&& self.name@ == name_text(names, self.name_offset as int)
    }

    fn read(cursor: &mut ByteCursor, names: &mut SMXNameTable) -> (r: Result<Self, Error>) {
        let tag = cursor.read_u32()?;
        let name_offset = cursor.read_i32()?;
        let name = names.string_at(name_offset)?;
        Ok(TagEntry { tag, name_offset, name })
    }
}

impl TagEntry {
    /// The bits of a tag that hold its flags.
    pub const FLAGMASK: u32 = 0x7e00_0000;

    /// The number of bytes that one record takes.
    pub const SIZE: i32 = 8;

    /// Decodes `data` as the records of the given section, each name looked
    /// up in `names`.
    pub fn new(data: &[u8], section: &SectionEntry, names: &mut SMXNameTable) -> (r: Result<
        Vec<Self>,
        Error,
    >)
        requires
            old(names).wf(),
        ensures
            final(names).wf(),
            final(names).bytes() == old(names).bytes(),
            flat_outcome(rows_of(r), data@, section.size as int, old(names).bytes()),
    {
        read_flat::<Self>(data, section.size, Self::SIZE, names)
    }
}

/// The source file of the code from an address on.
#[derive(Debug)]
pub struct DebugFileEntry {
    pub address: u32,
    pub name_offset: i32,
    pub name: String,
}

impl Clone for DebugFileEntry {
    fn clone(&self) -> (r: Self)
        ensures
            r == *self,
    {
        DebugFileEntry {
            address: self.address,
            name_offset: self.name_offset,
            name: self.name.clone(),
        }
    }
}

impl Record for DebugFileEntry {
    open spec fn width() -> nat {
        8
    }

    open spec fn fault_at(data: Seq<u8>, pos: int, names: Seq<u8>) -> Option<RowFault> {
        name_last_fault(data, pos, names, 4, 8)
    }

    open spec fn decodes(&self, data: Seq<u8>, pos: int, names: Seq<u8>) -> bool {
        &&& self.address == le_u32(data, pos)
        &&& self.name_offset == le_i32(data, pos + 4)
        &&& self.name@ == name_text(names, self.name_offset as int)
    }

    fn read(cursor: &mut ByteCursor, names: &mut SMXNameTable) -> (r: Result<Self, Error>) {
        let address = cursor.read_u32()?;
        let name_offset = cursor.read_i32()?;
        let name = names.string_at(name_offset)?;
        Ok(DebugFileEntry { address, name_offset, name })
    }
}

impl DebugFileEntry {
    /// The number of bytes that one record takes.
    pub const SIZE: i32 = 8;

    /// Decodes `data` as the records of the given section, each name looked
    /// up in `names`.
    pub fn new(data: &[u8], section: &SectionEntry, names: &mut SMXNameTable) -> (r: Result<
        Vec<Self>,
        Error,
    >)
        requires
            old(names).wf(),
        ensures
            final(names).wf(),
            final(names).bytes() == old(names).bytes(),
            flat_outcome(rows_of(r), data@, section.size as int, old(names).bytes()),
    {
        read_flat::<Self>(data, section.size, Self::SIZE, names)
    }
}

/// A function that the code calls and that has no name of its own: its
/// address and the name made for it.
#[derive(Debug)]
pub struct CalledFunctionEntry {
    pub address: u32,
    pub name: String,
}

impl Clone for CalledFunctionEntry {
    fn clone(&self) -> (r: Self)
        ensures
            r == *self,
    {
        CalledFunctionEntry { address: self.address, name: self.name.clone() }
    }
}

/// The header of the data section: the size of the data, the size of the
/// memory that the image asks for, and the offset of the data in the section.
#[derive(Debug, Clone, Copy, PartialEq, Eq, Structural)]
pub struct DataHeader {
    pub data_size: u32,
    pub memory_size: u32,
    pub data_offset: u32,
}

impl PlainRecord for DataHeader {
    open spec fn width() -> nat {
        12
    }

    open spec fn decode(data: Seq<u8>, pos: int) -> Self {
        DataHeader {
            data_size: le_u32(data, pos) as u32,
            memory_size: le_u32(data, pos + 4) as u32,
            data_offset: le_u32(data, pos + 8) as u32,
        }
    }

    fn read(cursor: &mut ByteCursor) -> (r: Result<Self, Error>) {
        let data_size = cursor.read_u32()?;
        let memory_size = cursor.read_u32()?;
        let data_offset = cursor.read_u32()?;
        Ok(DataHeader { data_size, memory_size, data_offset })
    }
}

impl DataHeader {
    /// Decodes the header from the first bytes of `data`. Fails with the
    /// reader's error where `data` is shorter than the header.
    pub fn new(data: &[u8]) -> (r: Result<Self, Error>)
        ensures
            readable(data@, 0, 12) ==> r == Ok::<Self, Error>(Self::decode(data@, 0)),
            !readable(data@, 0, 12) ==> r is Err && r->Err_0 is Io,
    {
        let mut cursor = ByteCursor::new(data);
        Self::read(&mut cursor)
    }
}

/// The header of the debug information: how many files, lines, symbols
/// and arrays it describes.
#[derive(Debug, Clone, Copy, PartialEq, Eq, Structural)]
pub struct DebugInfoHeader {
    pub file_count: i32,
    pub line_count: i32,
    pub symbol_count: i32,
    pub array_count: i32,
}

impl PlainRecord for DebugInfoHeader {
    open spec fn width() -> nat {
        16
    }

    open spec fn decode(data: Seq<u8>, pos: int) -> Self {
        DebugInfoHeader {
            file_count: le_i32(data, pos) as i32,
            line_count: le_i32(data, pos + 4) as i32,
            symbol_count: le_i32(data, pos + 8) as i32,
            array_count: le_i32(data, pos + 12) as i32,
        }
    }

    fn read(cursor: &mut ByteCursor) -> (r: Result<Self, Error>) {
        let file_count = cursor.read_i32()?;
        let line_count = cursor.read_i32()?;
        let symbol_count = cursor.read_i32()?;
        let array_count = cursor.read_i32()?;
        Ok(DebugInfoHeader { file_count, line_count, symbol_count, array_count })
    }
}

impl DebugInfoHeader {
    /// Decodes the header from the first bytes of `data`. Fails with the
    /// reader's error where `data` is shorter than the header.
    pub fn new(data: &[u8]) -> (r: Result<Self, Error>)
        ensures
            readable(data@, 0, 16) ==> r == Ok::<Self, Error>(Self::decode(data@, 0)),
            !readable(data@, 0, 16) ==> r is Err && r->Err_0 is Io,
    {
        let mut cursor = ByteCursor::new(data);
        Self::read(&mut cursor)
    }
}

/// The source line of the code from an address on, counted from zero.
#[derive(Debug, Clone, Copy, PartialEq, Eq, Structural)]
pub struct DebugLineEntry {
    pub address: u32,
    pub line: u32,
}

impl PlainRecord for DebugLineEntry {
    open spec fn width() -> nat {
        8
    }

    open spec fn decode(data: Seq<u8>, pos: int) -> Self {
        DebugLineEntry {
            address: le_u32(data, pos) as u32,
            line: le_u32(data, pos + 4) as u32,
        }
    }

    fn read(cursor: &mut ByteCursor) -> (r: Result<Self, Error>) {
        let address = cursor.read_u32()?;
        let line = cursor.read_u32()?;
        Ok(DebugLineEntry { address, line })
    }
}

impl DebugLineEntry {
    /// The number of bytes that one record takes.
    pub const SIZE: i32 = 8;

    /// Decodes `data` as the records of the given section.
    pub fn new(data: &[u8], section: &SectionEntry) -> (r: Result<Vec<Self>, Error>)
        ensures
            plain_flat_outcome(rows_of(r), data@, section.size as int),
    {
        read_plain_flat::<Self>(data, section.size, Self::SIZE)
    }
}

/// A method that has debug information: its index in the table of
/// methods, and the index of the first of its local variables.
#[derive(Debug, Clone, Copy, PartialEq, Eq, Structural)]
pub struct DebugMethodEntry {
    pub method_index: i32,
    pub first_local: i32,
}

impl PlainRecord for DebugMethodEntry {
    open spec fn width() -> nat {
        8
    }

    open spec fn decode(data: Seq<u8>, pos: int) -> Self {
        DebugMethodEntry {
            method_index: le_i32(data, pos) as i32,
            first_local: le_i32(data, pos + 4) as i32,
        }
    }

    fn read(cursor: &mut ByteCursor) -> (r: Result<Self, Error>) {
        let method_index = cursor.read_i32()?;
        let first_local = cursor.read_i32()?;
        Ok(DebugMethodEntry { method_index, first_local })
    }
}

impl DebugMethodEntry {
    /// Decodes the record at the first bytes of `data`. Fails with the
    /// reader's error where `data` is shorter than the record.
    pub fn new(data: &[u8]) -> (r: Result<Self, Error>)
        ensures
            readable(data@, 0, 8) ==> r == Ok::<Self, Error>(Self::decode(data@, 0)),
            !readable(data@, 0, 8) ==> r is Err && r->Err_0 is Io,
    {
        let mut cursor = ByteCursor::new(data);
        Self::read(&mut cursor)
    }
}

/// A variable: its address, its scope, its name, the range of code in
/// which it lives, and its type.
#[derive(Debug, Clone, Copy, PartialEq, Eq, Structural)]
pub struct DebugVarEntry {
    pub address: i32,
    pub scope: u8,
    pub name_offset: i32,
    pub code_start: i32,
    pub code_end: i32,
    pub type_id: i32,
}

impl PlainRecord for DebugVarEntry {
    open spec fn width() -> nat {
        21
    }

    open spec fn decode(data: Seq<u8>, pos: int) -> Self {
        DebugVarEntry {
            address: le_i32(data, pos) as i32,
            scope: data[pos + 4],
            name_offset: le_i32(data, pos + 5) as i32,
            code_start: le_i32(data, pos + 9) as i32,
            code_end: le_i32(data, pos + 13) as i32,
            type_id: le_i32(data, pos + 17) as i32,
        }
    }

    fn read(cursor: &mut ByteCursor) -> (r: Result<Self, Error>) {
        let address = cursor.read_i32()?;
        let scope = cursor.read_u8()?;
        let name_offset = cursor.read_i32()?;
        let code_start = cursor.read_i32()?;
        let code_end = cursor.read_i32()?;
        let type_id = cursor.read_i32()?;
        Ok(DebugVarEntry { address, scope, name_offset, code_start, code_end, type_id })
    }
}

impl DebugVarEntry {
    /// Decodes the record at the first bytes of `data`. Fails with the
    /// reader's error where `data` is shorter than the record.
    pub fn new(data: &[u8]) -> (r: Result<Self, Error>)
        ensures
            readable(data@, 0, 21) ==> r == Ok::<Self, Error>(Self::decode(data@, 0)),
            !readable(data@, 0, 21) ==> r is Err && r->Err_0 is Io,
    {
        let mut cursor = ByteCursor::new(data);
        Self::read(&mut cursor)
    }
}

/// The header of the code section. Its last number, the feature flags, is
/// present from code version 13 on; before that it counts as zero.
#[derive(Debug, Clone, Copy, PartialEq, Eq, Structural)]
pub struct CodeV1Header {
    pub code_size: i32,
    pub cell_size: u8,
    pub code_version: u8,
    pub flags: u16,
    pub main: i32,
    pub code_offset: i32,
    pub features: i32,
}

impl CodeV1Header {
    /// The code version from which on the header holds feature flags.
    pub const VERSION_FEATURES: u8 = 13;

    /// The number of bytes of the header that holds `data`: sixteen, or
    /// twenty where it holds feature flags.
    pub open spec fn width(data: Seq<u8>) -> int {
        if readable(data, 0, 16) && data[5] >= Self::VERSION_FEATURES {
            20
        } else {
            16
        }
    }

    /// The header that the first bytes of `data` say.
    pub open spec fn decode(data: Seq<u8>) -> Self {
        CodeV1Header {
            code_size: le_i32(data, 0) as i32,
            cell_size: data[4],
            code_version: data[5],
            flags: le_u16(data, 6) as u16,
            main: le_i32(data, 8) as i32,
            code_offset: le_i32(data, 12) as i32,
            features: if data[5] >= Self::VERSION_FEATURES {
                le_i32(data, 16) as i32
            } else {
                0
            },
        }
    }

    /// Decodes the header from the first bytes of `data`. Fails with the
    /// reader's error where `data` is shorter than the header.
    pub fn new(data: &[u8]) -> (r: Result<Self, Error>)
        ensures
            readable(data@, 0, Self::width(data@)) ==> r == Ok::<Self, Error>(Self::decode(data@)),
            !readable(data@, 0, Self::width(data@)) ==> r is Err && r->Err_0 is Io,
    {
        let mut cursor = ByteCursor::new(data);
        let code_size = cursor.read_i32()?;
        let cell_size = cursor.read_u8()?;
        let code_version = cursor.read_u8()?;
        let flags = cursor.read_u16()?;
        let main = cursor.read_i32()?;
        let code_offset = cursor.read_i32()?;
        let features = if code_version >= Self::VERSION_FEATURES {
            cursor.read_i32()?
        } else {
            0
        };
        Ok(CodeV1Header { code_size, cell_size, code_version, flags, main, code_offset, features })
    }
}

} // verus!
