//! The row tables of the run-time type information. Each begins with the
//! header of a row table; its rows follow the header at once.

use vstd::prelude::*;
use crate::errors::Error;
use crate::headers::{section_bytes, section_fault, SMXHeader, SectionEntry};
use crate::reader::{le_i32, le_u32, readable, ByteCursor};
use crate::records::{
    name_first_fault, name_last_fault, plain_outcome, rows_of, rows_outcome, PlainRecord, Record,
    RowFault,
};
use crate::rtti::list::SMXRTTIListTable;
use crate::sections::base::BaseSection;
use crate::sections::names::{name_text, SMXNameTable};

verus! {

/// Whether `r` is the outcome of decoding the row table of the given
/// section: the fault of the section's place; else the reader's error where
/// the section is too short for the header; else the rows that follow the
/// header, as many as the header says, or the error of the first row that
/// cannot be decoded.
pub open spec fn table_outcome<R: Record>(
    r: Result<Seq<R>, Error>,
    header: &SMXHeader,
    section: &SectionEntry,
    names: Seq<u8>,
) -> bool {
    match section_fault(header, section) {
        Some(e) => r == Err::<Seq<R>, Error>(e),
        None => {
            let data = section_bytes(header, section);
            if !readable(data, 0, 12) {
                r is Err && r->Err_0 is Io
            } else {
                rows_outcome(r, data, 12, le_u32(data, 8), names)
            }
        },
    }
}

/// Decodes the row table of the given section.
pub fn read_table<R: Record>(
    header: &SMXHeader,
    section: &SectionEntry,
    names: &mut SMXNameTable,
) -> (r: Result<Vec<R>, Error>)
    requires
        old(names).wf(),
        R::width() <= 0xffff_ffff,
    ensures
        final(names).wf(),
        final(names).bytes() == old(names).bytes(),
        table_outcome(rows_of(r), header, section, old(names).bytes()),
{
    let base = BaseSection::new(header, section);
    let mut rtti = SMXRTTIListTable::new(header, section);
    let data = base.get_data()?;
    let (rows, _) = rtti.read_rows::<R>(data.as_slice(), names)?;
    Ok(rows)
}

/// Whether `r` is the outcome of decoding the row table of the given
/// section, whose rows hold numbers only: the fault of the section's place;
/// else the reader's error where the section is too short for the header or
/// for the rows that the header counts; else those rows.
pub open spec fn plain_table_outcome<R: PlainRecord>(
    r: Result<Seq<R>, Error>,
    header: &SMXHeader,
    section: &SectionEntry,
) -> bool {
    match section_fault(header, section) {
        Some(e) => r == Err::<Seq<R>, Error>(e),
        None => {
            let data = section_bytes(header, section);
            if !readable(data, 0, 12) {
                r is Err && r->Err_0 is Io
            } else {
                plain_outcome(r, data, 12, le_u32(data, 8))
            }
        },
    }
}

/// Decodes the row table of the given section, whose rows hold numbers only.
pub fn read_plain_table<R: PlainRecord>(header: &SMXHeader, section: &SectionEntry) -> (r: Result<
    Vec<R>,
    Error,
>)
    requires
        R::width() <= 0xffff_ffff,
    ensures
        plain_table_outcome(rows_of(r), header, section),
{
    let base = BaseSection::new(header, section);
    let mut rtti = SMXRTTIListTable::new(header, section);
    let data = base.get_data()?;
    let (rows, _) = rtti.read_plain_rows::<R>(data.as_slice())?;
    Ok(rows)
}

/// The name of the row at `index`, or `InvalidIndex` where there is none.
pub open spec fn name_of(names: Seq<Seq<char>>, index: int) -> Result<Seq<char>, Error> {
    if 0 <= index < names.len() {
        Ok(names[index])
    } else {
        Err(Error::InvalidIndex)
    }
}

/// One enumeration: its name. Three reserved numbers follow each row.
#[derive(Debug)]
pub struct RTTIEnum {
    pub name: String,
}

impl Clone for RTTIEnum {
    fn clone(&self) -> (r: Self)
        ensures
            r == *self,
    {
        RTTIEnum { name: self.name.clone() }
    }
}

impl Record for RTTIEnum {
    open spec fn width() -> nat {
        16
    }

    open spec fn fault_at(data: Seq<u8>, pos: int, names: Seq<u8>) -> Option<RowFault> {
        name_first_fault(data, pos, names, 4)
    }

    open spec fn decodes(&self, data: Seq<u8>, pos: int, names: Seq<u8>) -> bool {
        self.name@ == name_text(names, le_i32(data, pos))
    }

    fn read(cursor: &mut ByteCursor, names: &mut SMXNameTable) -> (r: Result<Self, Error>) {
        let index = cursor.read_i32()?;
        let name = names.string_at(index)?;
        cursor.skip(12);
        Ok(RTTIEnum { name })
    }
}

/// The table of enumerations.
#[derive(Debug)]
pub struct SMXRTTIEnumTable {
    rows: Vec<RTTIEnum>,
}

impl View for SMXRTTIEnumTable {
    type V = Seq<RTTIEnum>;

    closed spec fn view(&self) -> Seq<RTTIEnum> {
        self.rows@
    }
}

impl Clone for SMXRTTIEnumTable {
    fn clone(&self) -> (r: Self)
        ensures
            r@ == self@,
    {
        let rows = self.rows.clone();
        assert(rows@ =~= self.rows@);
        SMXRTTIEnumTable { rows }
    }
}

impl SMXRTTIEnumTable {
    /// The names of the rows, by index.
    pub open spec fn names(&self) -> Seq<Seq<char>> {
        Seq::new(self@.len(), |i: int| self@[i].name@)
    }

    /// Decodes the table of the given section, each name looked up in `names`.
    pub fn new(header: &SMXHeader, section: &SectionEntry, names: &mut SMXNameTable) -> (r: Result<
        Self,
        Error,
    >)
        requires
            old(names).wf(),
        ensures
            final(names).wf(),
            final(names).bytes() == old(names).bytes(),
            table_outcome(
                match r {
                    Ok(t) => Ok(t@),
                    Err(e) => Err(e),
                },
                header,
                section,
                old(names).bytes(),
            ),
    {
        let rows = read_table::<RTTIEnum>(header, section, names)?;
        Ok(SMXRTTIEnumTable { rows })
    }

    /// A copy of the names, by index.
    pub fn enums(&self) -> (r: Vec<String>)
        ensures
            r@.len() == self@.len(),
            forall|i: int| 0 <= i < r@.len() ==> r@[i] == self@[i].name,
    {
        let mut enums: Vec<String> = Vec::new();
        let mut i: usize = 0;
        while i < self.rows.len()
            invariant
                i <= self.rows@.len(),
                enums@.len() == i,
                forall|j: int| 0 <= j < i ==> enums@[j] == self.rows@[j].name,
            decreases self.rows@.len() - i,
        {
            enums.push(self.rows[i].name.clone());
            i = i + 1;
        }
        enums
    }

    /// The number of rows.
    pub fn len(&self) -> (n: usize)
        ensures
            n == self@.len(),
    {
        self.rows.len()
    }

    /// The name of the row at `index`; `InvalidIndex` where there is none.
    pub fn lookup(&self, index: i32) -> (r: Result<String, Error>)
        ensures
            match name_of(self.names(), index as int) {
                Ok(name) => r is Ok && r->Ok_0@ == name,
                Err(e) => r == Err::<String, Error>(e),
            },
    {
        if index < 0 || index as usize >= self.rows.len() {
            return Err(Error::InvalidIndex);
        }
        Ok(self.rows[index as usize].name.clone())
    }
}

/// One method: its name, the range of its code and the offset of its
/// signature.
#[derive(Debug)]
pub struct RTTIMethod {
    pub name: String,
    pub pcode_start: i32,
    pub pcode_end: i32,
    pub signature: i32,
}

impl Clone for RTTIMethod {
    fn clone(&self) -> (r: Self)
        ensures
            r == *self,
    {
        RTTIMethod {
            name: self.name.clone(),
            pcode_start: self.pcode_start,
            pcode_end: self.pcode_end,
            signature: self.signature,
        }
    }
}

impl Record for RTTIMethod {
    open spec fn width() -> nat {
        16
    }

    open spec fn fault_at(data: Seq<u8>, pos: int, names: Seq<u8>) -> Option<RowFault> {
        name_first_fault(data, pos, names, 16)
    }

    open spec fn decodes(&self, data: Seq<u8>, pos: int, names: Seq<u8>) -> bool {
        &&& self.name@ == name_text(names, le_i32(data, pos))
        &&& self.pcode_start == le_i32(data, pos + 4)
        &&& self.pcode_end == le_i32(data, pos + 8)
        &&& self.signature == le_i32(data, pos + 12)
    }

    fn read(cursor: &mut ByteCursor, names: &mut SMXNameTable) -> (r: Result<Self, Error>) {
        let index = cursor.read_i32()?;
        let name = names.string_at(index)?;
        let pcode_start = cursor.read_i32()?;
        let pcode_end = cursor.read_i32()?;
        let signature = cursor.read_i32()?;
        Ok(RTTIMethod { name, pcode_start, pcode_end, signature })
    }
}

/// The table of methods.
#[derive(Debug)]
pub struct SMXRTTIMethodTable {
    methods: Vec<RTTIMethod>,
}

impl View for SMXRTTIMethodTable {
    type V = Seq<RTTIMethod>;

    closed spec fn view(&self) -> Seq<RTTIMethod> {
        self.methods@
    }
}

impl Clone for SMXRTTIMethodTable {
    fn clone(&self) -> (r: Self)
        ensures
            r@ == self@,
    {
        let methods = self.methods.clone();
        assert(methods@ =~= self.methods@);
        SMXRTTIMethodTable { methods }
    }
}

impl SMXRTTIMethodTable {
    /// The names of the rows, by index.
    pub open spec fn names(&self) -> Seq<Seq<char>> {
        Seq::new(self@.len(), |i: int| self@[i].name@)
    }

    /// Decodes the table of the given section, each name looked up in `names`.
    pub fn new(header: &SMXHeader, section: &SectionEntry, names: &mut SMXNameTable) -> (r: Result<
        Self,
        Error,
    >)
        requires
            old(names).wf(),
        ensures
            final(names).wf(),
            final(names).bytes() == old(names).bytes(),
            table_outcome(
                match r {
                    Ok(t) => Ok(t@),
                    Err(e) => Err(e),
                },
                header,
                section,
                old(names).bytes(),
            ),
    {
        let methods = read_table::<RTTIMethod>(header, section, names)?;
        Ok(SMXRTTIMethodTable { methods })
    }

    /// A copy of the rows.
    pub fn methods(&self) -> (r: Vec<RTTIMethod>)
        ensures
            r@ == self@,
    {
        let r = self.methods.clone();
        assert(r@ =~= self.methods@);
        r
    }

    /// The rows themselves.
    pub fn methods_ref(&self) -> (r: &Vec<RTTIMethod>)
        ensures
            r@ == self@,
    {
        &self.methods
    }

    /// The number of rows.
    pub fn len(&self) -> (n: usize)
        ensures
            n == self@.len(),
    {
        self.methods.len()
    }

    /// The name of the row at `index`; `InvalidIndex` where there is none.
    pub fn lookup(&self, index: i32) -> (r: Result<String, Error>)
        ensures
            match name_of(self.names(), index as int) {
                Ok(name) => r is Ok && r->Ok_0@ == name,
                Err(e) => r == Err::<String, Error>(e),
            },
    {
        if index < 0 || index as usize >= self.methods.len() {
            return Err(Error::InvalidIndex);
        }
        Ok(self.methods[index as usize].name.clone())
    }
}

/// One native function: its name and the offset of its signature.
#[derive(Debug)]
pub struct RTTINative {
    pub name: String,
    pub signature: i32,
}

impl Clone for RTTINative {
    fn clone(&self) -> (r: Self)
        ensures
            r == *self,
    {
        RTTINative { name: self.name.clone(), signature: self.signature }
    }
}

impl Record for RTTINative {
    open spec fn width() -> nat {
        8
    }

    open spec fn fault_at(data: Seq<u8>, pos: int, names: Seq<u8>) -> Option<RowFault> {
        name_first_fault(data, pos, names, 8)
    }

    open spec fn decodes(&self, data: Seq<u8>, pos: int, names: Seq<u8>) -> bool {
        &&& self.name@ == name_text(names, le_i32(data, pos))
        &&& self.signature == le_i32(data, pos + 4)
    }

    fn read(cursor: &mut ByteCursor, names: &mut SMXNameTable) -> (r: Result<Self, Error>) {
        let index = cursor.read_i32()?;
        let name = names.string_at(index)?;
        let signature = cursor.read_i32()?;
        Ok(RTTINative { name, signature })
    }
}

/// The table of native functions.
#[derive(Debug)]
pub struct SMXRTTINativeTable {
    natives: Vec<RTTINative>,
}

impl View for SMXRTTINativeTable {
    type V = Seq<RTTINative>;

    closed spec fn view(&self) -> Seq<RTTINative> {
        self.natives@
    }
}

impl Clone for SMXRTTINativeTable {
    fn clone(&self) -> (r: Self)
        ensures
            r@ == self@,
    {
        let natives = self.natives.clone();
        assert(natives@ =~= self.natives@);
        SMXRTTINativeTable { natives }
    }
}

impl SMXRTTINativeTable {
    /// The names of the rows, by index.
    pub open spec fn names(&self) -> Seq<Seq<char>> {
        Seq::new(self@.len(), |i: int| self@[i].name@)
    }

    /// Decodes the table of the given section, each name looked up in `names`.
    pub fn new(header: &SMXHeader, section: &SectionEntry, names: &mut SMXNameTable) -> (r: Result<
        Self,
        Error,
    >)
        requires
            old(names).wf(),
        ensures
            final(names).wf(),
            final(names).bytes() == old(names).bytes(),
            table_outcome(
                match r {
                    Ok(t) => Ok(t@),
                    Err(e) => Err(e),
                },
                header,
                section,
                old(names).bytes(),
            ),
    {
        let natives = read_table::<RTTINative>(header, section, names)?;
        Ok(SMXRTTINativeTable { natives })
    }

    /// A copy of the rows.
    pub fn natives(&self) -> (r: Vec<RTTINative>)
        ensures
            r@ == self@,
    {
        let r = self.natives.clone();
        assert(r@ =~= self.natives@);
        r
    }

    /// The rows themselves.
    pub fn natives_ref(&self) -> (r: &Vec<RTTINative>)
        ensures
            r@ == self@,
    {
        &self.natives
    }

    /// The number of rows.
    pub fn len(&self) -> (n: usize)
        ensures
            n == self@.len(),
    {
        self.natives.len()
    }

    /// The name of the row at `index`; `InvalidIndex` where there is none.
    pub fn lookup(&self, index: i32) -> (r: Result<String, Error>)
        ensures
            match name_of(self.names(), index as int) {
                Ok(name) => r is Ok && r->Ok_0@ == name,
                Err(e) => r == Err::<String, Error>(e),
            },
    {
        if index < 0 || index as usize >= self.natives.len() {
            return Err(Error::InvalidIndex);
        }
        Ok(self.natives[index as usize].name.clone())
    }
}

/// One type definition: its name and the type it stands for.
#[derive(Debug)]
pub struct RTTITypedef {
    pub name: String,
    pub type_id: i32,
}

impl Clone for RTTITypedef {
    fn clone(&self) -> (r: Self)
        ensures
            r == *self,
    {
        RTTITypedef { name: self.name.clone(), type_id: self.type_id }
    }
}

impl Record for RTTITypedef {
    open spec fn width() -> nat {
        8
    }

    open spec fn fault_at(data: Seq<u8>, pos: int, names: Seq<u8>) -> Option<RowFault> {
        name_first_fault(data, pos, names, 8)
    }

    open spec fn decodes(&self, data: Seq<u8>, pos: int, names: Seq<u8>) -> bool {
        &&& self.name@ == name_text(names, le_i32(data, pos))
        &&& self.type_id == le_i32(data, pos + 4)
    }

    fn read(cursor: &mut ByteCursor, names: &mut SMXNameTable) -> (r: Result<Self, Error>) {
        let index = cursor.read_i32()?;
        let name = names.string_at(index)?;
        let type_id = cursor.read_i32()?;
        Ok(RTTITypedef { name, type_id })
    }
}

/// The table of type definitions.
#[derive(Debug)]
pub struct SMXRTTITypedefTable {
    typedefs: Vec<RTTITypedef>,
}

impl View for SMXRTTITypedefTable {
    type V = Seq<RTTITypedef>;

    closed spec fn view(&self) -> Seq<RTTITypedef> {
        self.typedefs@
    }
}

impl Clone for SMXRTTITypedefTable {
    fn clone(&self) -> (r: Self)
        ensures
            r@ == self@,
    {
        let typedefs = self.typedefs.clone();
        assert(typedefs@ =~= self.typedefs@);
        SMXRTTITypedefTable { typedefs }
    }
}

impl SMXRTTITypedefTable {
    /// The names of the rows, by index.
    pub open spec fn names(&self) -> Seq<Seq<char>> {
        Seq::new(self@.len(), |i: int| self@[i].name@)
    }

    /// Decodes the table of the given section, each name looked up in `names`.
    pub fn new(header: &SMXHeader, section: &SectionEntry, names: &mut SMXNameTable) -> (r: Result<
        Self,
        Error,
    >)
        requires
            old(names).wf(),
        ensures
            final(names).wf(),
            final(names).bytes() == old(names).bytes(),
            table_outcome(
                match r {
                    Ok(t) => Ok(t@),
                    Err(e) => Err(e),
                },
                header,
                section,
                old(names).bytes(),
            ),
    {
        let typedefs = read_table::<RTTITypedef>(header, section, names)?;
        Ok(SMXRTTITypedefTable { typedefs })
    }

    /// A copy of the rows.
    pub fn typedefs(&self) -> (r: Vec<RTTITypedef>)
        ensures
            r@ == self@,
    {
        let r = self.typedefs.clone();
        assert(r@ =~= self.typedefs@);
        r
    }

    /// The rows themselves.
    pub fn typedefs_ref(&self) -> (r: &Vec<RTTITypedef>)
        ensures
            r@ == self@,
    {
        &self.typedefs
    }

    /// The number of rows.
    pub fn len(&self) -> (n: usize)
        ensures
            n == self@.len(),
    {
        self.typedefs.len()
    }

    /// The name of the row at `index`; `InvalidIndex` where there is none.
    pub fn lookup(&self, index: i32) -> (r: Result<String, Error>)
        ensures
            match name_of(self.names(), index as int) {
                Ok(name) => r is Ok && r->Ok_0@ == name,
                Err(e) => r == Err::<String, Error>(e),
            },
    {
        if index < 0 || index as usize >= self.typedefs.len() {
            return Err(Error::InvalidIndex);
        }
        Ok(self.typedefs[index as usize].name.clone())
    }
}

/// One type set: its name and the offset of its list of types.
#[derive(Debug)]
pub struct RTTITypeset {
    pub name: String,
    pub signature: i32,
}

impl Clone for RTTITypeset {
    fn clone(&self) -> (r: Self)
        ensures
            r == *self,
    {
        RTTITypeset { name: self.name.clone(), signature: self.signature }
    }
}

impl Record for RTTITypeset {
    open spec fn width() -> nat {
        8
    }

    open spec fn fault_at(data: Seq<u8>, pos: int, names: Seq<u8>) -> Option<RowFault> {
        name_first_fault(data, pos, names, 8)
    }

    open spec fn decodes(&self, data: Seq<u8>, pos: int, names: Seq<u8>) -> bool {
        &&& self.name@ == name_text(names, le_i32(data, pos))
        &&& self.signature == le_i32(data, pos + 4)
    }

    fn read(cursor: &mut ByteCursor, names: &mut SMXNameTable) -> (r: Result<Self, Error>) {
        let index = cursor.read_i32()?;
        let name = names.string_at(index)?;
        let signature = cursor.read_i32()?;
        Ok(RTTITypeset { name, signature })
    }
}

/// The table of type sets.
#[derive(Debug)]
pub struct SMXRTTITypesetTable {
    typesets: Vec<RTTITypeset>,
}

impl View for SMXRTTITypesetTable {
    type V = Seq<RTTITypeset>;

    closed spec fn view(&self) -> Seq<RTTITypeset> {
        self.typesets@
    }
}

impl Clone for SMXRTTITypesetTable {
    fn clone(&self) -> (r: Self)
        ensures
            r@ == self@,
    {
        let typesets = self.typesets.clone();
        assert(typesets@ =~= self.typesets@);
        SMXRTTITypesetTable { typesets }
    }
}

impl SMXRTTITypesetTable {
    /// The names of the rows, by index.
    pub open spec fn names(&self) -> Seq<Seq<char>> {
        Seq::new(self@.len(), |i: int| self@[i].name@)
    }

    /// Decodes the table of the given section, each name looked up in `names`.
    pub fn new(header: &SMXHeader, section: &SectionEntry, names: &mut SMXNameTable) -> (r: Result<
        Self,
        Error,
    >)
        requires
            old(names).wf(),
        ensures
            final(names).wf(),
            final(names).bytes() == old(names).bytes(),
            table_outcome(
                match r {
                    Ok(t) => Ok(t@),
                    Err(e) => Err(e),
                },
                header,
                section,
                old(names).bytes(),
            ),
    {
        let typesets = read_table::<RTTITypeset>(header, section, names)?;
        Ok(SMXRTTITypesetTable { typesets })
    }

    /// A copy of the rows.
    pub fn typesets(&self) -> (r: Vec<RTTITypeset>)
        ensures
            r@ == self@,
    {
        let r = self.typesets.clone();
        assert(r@ =~= self.typesets@);
        r
    }

    /// The rows themselves.
    pub fn typesets_ref(&self) -> (r: &Vec<RTTITypeset>)
        ensures
            r@ == self@,
    {
        &self.typesets
    }

    /// The number of rows.
    pub fn len(&self) -> (n: usize)
        ensures
            n == self@.len(),
    {
        self.typesets.len()
    }

    /// The name of the row at `index`; `InvalidIndex` where there is none.
    pub fn lookup(&self, index: i32) -> (r: Result<String, Error>)
        ensures
            match name_of(self.names(), index as int) {
                Ok(name) => r is Ok && r->Ok_0@ == name,
                Err(e) => r == Err::<String, Error>(e),
            },
    {
        if index < 0 || index as usize >= self.typesets.len() {
            return Err(Error::InvalidIndex);
        }
        Ok(self.typesets[index as usize].name.clone())
    }
}

/// One enum struct: its name, the index of its first field and its size.
#[derive(Debug)]
pub struct RTTIEnumStruct {
    pub name_offset: i32,
    pub first_field: i32,
    pub size: i32,
    pub name: String,
}

impl Clone for RTTIEnumStruct {
    fn clone(&self) -> (r: Self)
        ensures
            r == *self,
    {
        RTTIEnumStruct {
            name_offset: self.name_offset,
            first_field: self.first_field,
            size: self.size,
            name: self.name.clone(),
        }
    }
}

impl Record for RTTIEnumStruct {
    open spec fn width() -> nat {
        12
    }

    open spec fn fault_at(data: Seq<u8>, pos: int, names: Seq<u8>) -> Option<RowFault> {
        name_last_fault(data, pos, names, 0, 12)
    }

    open spec fn decodes(&self, data: Seq<u8>, pos: int, names: Seq<u8>) -> bool {
        &&& self.name_offset == le_i32(data, pos)
        &&& self.first_field == le_i32(data, pos + 4)
        &&& self.size == le_i32(data, pos + 8)
        &&& self.name@ == name_text(names, self.name_offset as int)
    }

    fn read(cursor: &mut ByteCursor, names: &mut SMXNameTable) -> (r: Result<Self, Error>) {
        let name_offset = cursor.read_i32()?;
        let first_field = cursor.read_i32()?;
        let size = cursor.read_i32()?;
        let name = names.string_at(name_offset)?;
        Ok(RTTIEnumStruct { name_offset, first_field, size, name })
    }
}

/// The table of enum structs.
#[derive(Debug)]
pub struct SMXRTTIEnumStructTable {
    entries: Vec<RTTIEnumStruct>,
}

impl View for SMXRTTIEnumStructTable {
    type V = Seq<RTTIEnumStruct>;

    closed spec fn view(&self) -> Seq<RTTIEnumStruct> {
        self.entries@
    }
}

impl Clone for SMXRTTIEnumStructTable {
    fn clone(&self) -> (r: Self)
        ensures
            r@ == self@,
    {
        let entries = self.entries.clone();
        assert(entries@ =~= self.entries@);
        SMXRTTIEnumStructTable { entries }
    }
}

impl SMXRTTIEnumStructTable {
    /// The names of the rows, by index.
    pub open spec fn names(&self) -> Seq<Seq<char>> {
        Seq::new(self@.len(), |i: int| self@[i].name@)
    }

    /// Decodes the table of the given section, each name looked up in `names`.
    pub fn new(header: &SMXHeader, section: &SectionEntry, names: &mut SMXNameTable) -> (r: Result<
        Self,
        Error,
    >)
        requires
            old(names).wf(),
        ensures
            final(names).wf(),
            final(names).bytes() == old(names).bytes(),
            table_outcome(
                match r {
                    Ok(t) => Ok(t@),
                    Err(e) => Err(e),
                },
                header,
                section,
                old(names).bytes(),
            ),
    {
        let entries = read_table::<RTTIEnumStruct>(header, section, names)?;
        Ok(SMXRTTIEnumStructTable { entries })
    }

    /// A copy of the rows.
    pub fn entries(&self) -> (r: Vec<RTTIEnumStruct>)
        ensures
            r@ == self@,
    {
        let r = self.entries.clone();
        assert(r@ =~= self.entries@);
        r
    }

    /// The rows themselves.
    pub fn entries_ref(&self) -> (r: &Vec<RTTIEnumStruct>)
        ensures
            r@ == self@,
    {
        &self.entries
    }

    /// The number of rows.
    pub fn len(&self) -> (n: usize)
        ensures
            n == self@.len(),
    {
        self.entries.len()
    }

    /// The name of the row at `index`; `InvalidIndex` where there is none.
    pub fn lookup(&self, index: i32) -> (r: Result<String, Error>)
        ensures
            match name_of(self.names(), index as int) {
                Ok(name) => r is Ok && r->Ok_0@ == name,
                Err(e) => r == Err::<String, Error>(e),
            },
    {
        if index < 0 || index as usize >= self.entries.len() {
            return Err(Error::InvalidIndex);
        }
        Ok(self.entries[index as usize].name.clone())
    }
}

/// One field of an enum struct: its name, its type and its offset in the
/// struct.
#[derive(Debug)]
pub struct RTTIEnumStructField {
    pub name_offset: i32,
    pub type_id: i32,
    pub offset: i32,
    pub name: String,
}

impl Clone for RTTIEnumStructField {
    fn clone(&self) -> (r: Self)
        ensures
            r == *self,
    {
        RTTIEnumStructField {
            name_offset: self.name_offset,
            type_id: self.type_id,
            offset: self.offset,
            name: self.name.clone(),
        }
    }
}

impl Record for RTTIEnumStructField {
    open spec fn width() -> nat {
        12
    }

    open spec fn fault_at(data: Seq<u8>, pos: int, names: Seq<u8>) -> Option<RowFault> {
        name_last_fault(data, pos, names, 0, 12)
    }

    open spec fn decodes(&self, data: Seq<u8>, pos: int, names: Seq<u8>) -> bool {
        &&& self.name_offset == le_i32(data, pos)
        &&& self.type_id == le_i32(data, pos + 4)
        &&& self.offset == le_i32(data, pos + 8)
        &&& self.name@ == name_text(names, self.name_offset as int)
    }

    fn read(cursor: &mut ByteCursor, names: &mut SMXNameTable) -> (r: Result<Self, Error>) {
        let name_offset = cursor.read_i32()?;
        let type_id = cursor.read_i32()?;
        let offset = cursor.read_i32()?;
        let name = names.string_at(name_offset)?;
        Ok(RTTIEnumStructField { name_offset, type_id, offset, name })
    }
}

/// The table of the fields of enum structs.
#[derive(Debug)]
pub struct SMXRTTIEnumStructFieldTable {
    entries: Vec<RTTIEnumStructField>,
}

impl View for SMXRTTIEnumStructFieldTable {
    type V = Seq<RTTIEnumStructField>;

    closed spec fn view(&self) -> Seq<RTTIEnumStructField> {
        self.entries@
    }
}

impl Clone for SMXRTTIEnumStructFieldTable {
    fn clone(&self) -> (r: Self)
        ensures
            r@ == self@,
    {
        let entries = self.entries.clone();
        assert(entries@ =~= self.entries@);
        SMXRTTIEnumStructFieldTable { entries }
    }
}

impl SMXRTTIEnumStructFieldTable {
    /// The names of the rows, by index.
    pub open spec fn names(&self) -> Seq<Seq<char>> {
        Seq::new(self@.len(), |i: int| self@[i].name@)
    }

    /// Decodes the table of the given section, each name looked up in `names`.
    pub fn new(header: &SMXHeader, section: &SectionEntry, names: &mut SMXNameTable) -> (r: Result<
        Self,
        Error,
    >)
        requires
            old(names).wf(),
        ensures
            final(names).wf(),
            final(names).bytes() == old(names).bytes(),
            table_outcome(
                match r {
                    Ok(t) => Ok(t@),
                    Err(e) => Err(e),
                },
                header,
                section,
                old(names).bytes(),
            ),
    {
        let entries = read_table::<RTTIEnumStructField>(header, section, names)?;
        Ok(SMXRTTIEnumStructFieldTable { entries })
    }

    /// A copy of the rows.
    pub fn entries(&self) -> (r: Vec<RTTIEnumStructField>)
        ensures
            r@ == self@,
    {
        let r = self.entries.clone();
        assert(r@ =~= self.entries@);
        r
    }

    /// The rows themselves.
    pub fn entries_ref(&self) -> (r: &Vec<RTTIEnumStructField>)
        ensures
            r@ == self@,
    {
        &self.entries
    }

    /// The number of rows.
    pub fn len(&self) -> (n: usize)
        ensures
            n == self@.len(),
    {
        self.entries.len()
    }

    /// The name of the row at `index`; `InvalidIndex` where there is none.
    pub fn lookup(&self, index: i32) -> (r: Result<String, Error>)
        ensures
            match name_of(self.names(), index as int) {
                Ok(name) => r is Ok && r->Ok_0@ == name,
                Err(e) => r == Err::<String, Error>(e),
            },
    {
        if index < 0 || index as usize >= self.entries.len() {
            return Err(Error::InvalidIndex);
        }
        Ok(self.entries[index as usize].name.clone())
    }
}

/// One class definition: its flags, its name and the index of its first
/// field. Four reserved numbers follow each row.
#[derive(Debug)]
pub struct RTTIClassDef {
    pub flags: i32,
    pub name_offset: i32,
    pub first_field: i32,
    pub name: String,
}

impl Clone for RTTIClassDef {
    fn clone(&self) -> (r: Self)
        ensures
            r == *self,
    {
        RTTIClassDef {
            flags: self.flags,
            name_offset: self.name_offset,
            first_field: self.first_field,
            name: self.name.clone(),
        }
    }
}

impl Record for RTTIClassDef {
    open spec fn width() -> nat {
        28
    }

    open spec fn fault_at(data: Seq<u8>, pos: int, names: Seq<u8>) -> Option<RowFault> {
        name_last_fault(data, pos, names, 4, 12)
    }

    open spec fn decodes(&self, data: Seq<u8>, pos: int, names: Seq<u8>) -> bool {
        &&& self.flags == le_i32(data, pos)
        &&& self.name_offset == le_i32(data, pos + 4)
        &&& self.first_field == le_i32(data, pos + 8)
        &&& self.name@ == name_text(names, self.name_offset as int)
    }

    fn read(cursor: &mut ByteCursor, names: &mut SMXNameTable) -> (r: Result<Self, Error>) {
        let flags = cursor.read_i32()?;
        let name_offset = cursor.read_i32()?;
        let first_field = cursor.read_i32()?;
        let name = names.string_at(name_offset)?;
        cursor.skip(16);
        Ok(RTTIClassDef { flags, name_offset, first_field, name })
    }
}

/// The table of class definitions.
#[derive(Debug)]
pub struct SMXRTTIClassDefTable {
    defs: Vec<RTTIClassDef>,
}

impl View for SMXRTTIClassDefTable {
    type V = Seq<RTTIClassDef>;

    closed spec fn view(&self) -> Seq<RTTIClassDef> {
        self.defs@
    }
}

impl Clone for SMXRTTIClassDefTable {
    fn clone(&self) -> (r: Self)
        ensures
            r@ == self@,
    {
        let defs = self.defs.clone();
        assert(defs@ =~= self.defs@);
        SMXRTTIClassDefTable { defs }
    }
}

impl SMXRTTIClassDefTable {
    /// The names of the rows, by index.
    pub open spec fn names(&self) -> Seq<Seq<char>> {
        Seq::new(self@.len(), |i: int| self@[i].name@)
    }

    /// Decodes the table of the given section, each name looked up in `names`.
    pub fn new(header: &SMXHeader, section: &SectionEntry, names: &mut SMXNameTable) -> (r: Result<
        Self,
        Error,
    >)
        requires
            old(names).wf(),
        ensures
            final(names).wf(),
            final(names).bytes() == old(names).bytes(),
            table_outcome(
                match r {
                    Ok(t) => Ok(t@),
                    Err(e) => Err(e),
                },
                header,
                section,
                old(names).bytes(),
            ),
    {
        let defs = read_table::<RTTIClassDef>(header, section, names)?;
        Ok(SMXRTTIClassDefTable { defs })
    }

    /// A copy of the rows.
    pub fn defs(&self) -> (r: Vec<RTTIClassDef>)
        ensures
            r@ == self@,
    {
        let r = self.defs.clone();
        assert(r@ =~= self.defs@);
        r
    }

    /// The rows themselves.
    pub fn defs_ref(&self) -> (r: &Vec<RTTIClassDef>)
        ensures
            r@ == self@,
    {
        &self.defs
    }

    /// The number of rows.
    pub fn len(&self) -> (n: usize)
        ensures
            n == self@.len(),
    {
        self.defs.len()
    }

    /// The name of the row at `index`; `InvalidIndex` where there is none.
    pub fn lookup(&self, index: i32) -> (r: Result<String, Error>)
        ensures
            match name_of(self.names(), index as int) {
                Ok(name) => r is Ok && r->Ok_0@ == name,
                Err(e) => r == Err::<String, Error>(e),
            },
    {
        if index < 0 || index as usize >= self.defs.len() {
            return Err(Error::InvalidIndex);
        }
        Ok(self.defs[index as usize].name.clone())
    }
}

/// One field of a class: its flags, its name and its type.
#[derive(Debug)]
pub struct RTTIField {
    pub flags: i32,
    pub name_offset: i32,
    pub type_id: i32,
    pub name: String,
}

impl Clone for RTTIField {
    fn clone(&self) -> (r: Self)
        ensures
            r == *self,
    {
        RTTIField {
            flags: self.flags,
            name_offset: self.name_offset,
            type_id: self.type_id,
            name: self.name.clone(),
        }
    }
}

impl Record for RTTIField {
    open spec fn width() -> nat {
        12
    }

    open spec fn fault_at(data: Seq<u8>, pos: int, names: Seq<u8>) -> Option<RowFault> {
        name_last_fault(data, pos, names, 4, 12)
    }

    open spec fn decodes(&self, data: Seq<u8>, pos: int, names: Seq<u8>) -> bool {
        &&& self.flags == le_i32(data, pos)
        &&& self.name_offset == le_i32(data, pos + 4)
        &&& self.type_id == le_i32(data, pos + 8)
        &&& self.name@ == name_text(names, self.name_offset as int)
    }

    fn read(cursor: &mut ByteCursor, names: &mut SMXNameTable) -> (r: Result<Self, Error>) {
        let flags = cursor.read_i32()?;
        let name_offset = cursor.read_i32()?;
        let type_id = cursor.read_i32()?;
        let name = names.string_at(name_offset)?;
        Ok(RTTIField { flags, name_offset, type_id, name })
    }
}

/// The table of the fields of classes.
#[derive(Debug)]
pub struct SMXRTTIFieldTable {
    fields: Vec<RTTIField>,
}

impl View for SMXRTTIFieldTable {
    type V = Seq<RTTIField>;

    closed spec fn view(&self) -> Seq<RTTIField> {
        self.fields@
    }
}

impl Clone for SMXRTTIFieldTable {
    fn clone(&self) -> (r: Self)
        ensures
            r@ == self@,
    {
        let fields = self.fields.clone();
        assert(fields@ =~= self.fields@);
        SMXRTTIFieldTable { fields }
    }
}

impl SMXRTTIFieldTable {
    /// The names of the rows, by index.
    pub open spec fn names(&self) -> Seq<Seq<char>> {
        Seq::new(self@.len(), |i: int| self@[i].name@)
    }

    /// Decodes the table of the given section, each name looked up in `names`.
    pub fn new(header: &SMXHeader, section: &SectionEntry, names: &mut SMXNameTable) -> (r: Result<
        Self,
        Error,
    >)
        requires
            old(names).wf(),
        ensures
            final(names).wf(),
            final(names).bytes() == old(names).bytes(),
            table_outcome(
                match r {
                    Ok(t) => Ok(t@),
                    Err(e) => Err(e),
                },
                header,
                section,
                old(names).bytes(),
            ),
    {
        let fields = read_table::<RTTIField>(header, section, names)?;
        Ok(SMXRTTIFieldTable { fields })
    }

    /// A copy of the rows.
    pub fn fields(&self) -> (r: Vec<RTTIField>)
        ensures
            r@ == self@,
    {
        let r = self.fields.clone();
        assert(r@ =~= self.fields@);
        r
    }

    /// The rows themselves.
    pub fn fields_ref(&self) -> (r: &Vec<RTTIField>)
        ensures
            r@ == self@,
    {
        &self.fields
    }

    /// The number of rows.
    pub fn len(&self) -> (n: usize)
        ensures
            n == self@.len(),
    {
        self.fields.len()
    }

    /// The name of the row at `index`; `InvalidIndex` where there is none.
    pub fn lookup(&self, index: i32) -> (r: Result<String, Error>)
        ensures
            match name_of(self.names(), index as int) {
                Ok(name) => r is Ok && r->Ok_0@ == name,
                Err(e) => r == Err::<String, Error>(e),
            },
    {
        if index < 0 || index as usize >= self.fields.len() {
            return Err(Error::InvalidIndex);
        }
        Ok(self.fields[index as usize].name.clone())
    }
}

} // verus!
