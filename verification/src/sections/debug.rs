//! The debug tables that answer by code address: source files and lines,
//! and the methods that have debug information.

use vstd::prelude::*;
use crate::errors::Error;
use crate::headers::{section_bytes, section_fault, SMXHeader, SectionEntry};
use crate::reader::readable;
use crate::records::PlainRecord;
use crate::rtti::tables::{plain_table_outcome, read_plain_table};
use crate::sections::base::BaseSection;
use crate::sections::names::SMXNameTable;
use crate::sections::tables::section_outcome;
use crate::v1types::{
    plain_flat_outcome, DebugFileEntry, DebugInfoHeader, DebugLineEntry, DebugMethodEntry,
};

verus! {

/// A row that says what holds from a code address on.
pub trait Addressed {
    /// The address from which on the row holds.
    spec fn spec_address(&self) -> u32;

    /// The address from which on the row holds.
    fn address(&self) -> (a: u32)
        ensures
            a == self.spec_address(),
    ;
}

impl Addressed for DebugFileEntry {
    open spec fn spec_address(&self) -> u32 {
        self.address
    }

    fn address(&self) -> (a: u32) {
        self.address
    }
}

impl Addressed for DebugLineEntry {
    open spec fn spec_address(&self) -> u32 {
        self.address
    }

    fn address(&self) -> (a: u32) {
        self.address
    }
}

/// Whether the addresses of the rows never fall from one row to the next.
pub open spec fn ascending<T: Addressed>(rows: Seq<T>) -> bool {
    forall|i: int, j: int|
        0 <= i <= j < rows.len() ==> (#[trigger] rows[i]).spec_address() <= (
        #[trigger] rows[j]).spec_address()
}

/// Whether row `i` covers `addr`: it begins at or before `addr`, and the row
/// behind it, if there is one, begins after `addr`.
pub open spec fn covers<T: Addressed>(rows: Seq<T>, addr: u32, i: int) -> bool {
    &&& 0 <= i < rows.len()
    &&& rows[i].spec_address() <= addr
    &&& i + 1 == rows.len() || addr < rows[i + 1].spec_address()
}

/// Whether no row covers `addr` because the first begins after it, or there
/// is none.
pub open spec fn precedes<T: Addressed>(rows: Seq<T>, addr: u32) -> bool {
    rows.len() == 0 || addr < rows[0].spec_address()
}

/// In a table in ascending order, the row that covers an address is the last
/// that begins at or before the address: every row up to it does, and none
/// behind it.
pub proof fn lemma_covering_row_is_last<T: Addressed>(rows: Seq<T>, addr: u32, i: int)
    requires
        ascending(rows),
        covers(rows, addr, i),
    ensures
        forall|k: int| 0 <= k < rows.len() ==> (k <= i <==> (#[trigger] rows[k]).spec_address() <= addr),
{
    assert forall|k: int| 0 <= k < rows.len() implies (k <= i <==> (#[trigger] rows[k]).spec_address()
        <= addr) by {
        if k <= i {
            assert(rows[k].spec_address() <= rows[i].spec_address());
        } else {
            assert(rows[i + 1].spec_address() <= rows[k].spec_address());
        }
    }
}

/// In a table in ascending order whose first row begins after an address,
/// every row does.
pub proof fn lemma_preceding_address<T: Addressed>(rows: Seq<T>, addr: u32)
    requires
        ascending(rows),
        precedes(rows, addr),
    ensures
        forall|k: int| 0 <= k < rows.len() ==> addr < (#[trigger] rows[k]).spec_address(),
{
    assert forall|k: int| 0 <= k < rows.len() implies addr < (#[trigger] rows[k]).spec_address() by {
        assert(rows[0].spec_address() <= rows[k].spec_address());
    }
}

/// The index of the row that covers `addr`, found by halving; `None` where
/// the first row begins after `addr` or there is no row. In a table in
/// ascending order that row is the last that begins at or before `addr`.
pub fn interval_lookup<T: Addressed>(rows: &Vec<T>, addr: u32) -> (r: Option<usize>)
    ensures
        match r {
            Some(i) => covers(rows@, addr, i as int),
            None => precedes(rows@, addr),
        },
{
    let mut low: usize = 0;
    let mut high: usize = rows.len();
    while low < high
        invariant
            low <= high <= rows@.len(),
            low == 0 || rows@[low - 1].spec_address() <= addr,
            high == rows@.len() || addr < rows@[high as int].spec_address(),
        decreases high - low,
    {
        let mid = low + (high - 1 - low) / 2;
        if rows[mid].address() <= addr {
            low = mid + 1;
        } else {
            high = mid;
        }
    }
    if low == 0 {
        None
    } else {
        Some(low - 1)
    }
}

/// The counts of the debug information.
#[derive(Debug, Clone, Copy)]
pub struct SMXDebugInfoSection {
    info: DebugInfoHeader,
}

impl View for SMXDebugInfoSection {
    type V = DebugInfoHeader;

    closed spec fn view(&self) -> DebugInfoHeader {
        self.info
    }
}

impl SMXDebugInfoSection {
    /// Decodes the header of the given section. Fails with the fault of the
    /// section's place, or with the reader's error where the section is
    /// shorter than the header.
    pub fn new(header: &SMXHeader, section: &SectionEntry) -> (r: Result<Self, Error>)
        ensures
            match section_fault(header, section) {
                Some(e) => r == Err::<Self, Error>(e),
                None => if readable(section_bytes(header, section), 0, 16) {
                    r is Ok && r->Ok_0@ == DebugInfoHeader::decode(section_bytes(header, section), 0)
                } else {
                    r is Err && r->Err_0 is Io
                },
            },
    {
        let base = BaseSection::new(header, section);
        let data = base.get_data()?;
        let info = DebugInfoHeader::new(data.as_slice())?;
        Ok(Self { info })
    }

    pub fn file_count(&self) -> (n: i32)
        ensures
            n == self@.file_count,
    {
        self.info.file_count
    }

    pub fn line_count(&self) -> (n: i32)
        ensures
            n == self@.line_count,
    {
        self.info.line_count
    }

    pub fn symbol_count(&self) -> (n: i32)
        ensures
            n == self@.symbol_count,
    {
        self.info.symbol_count
    }

    pub fn array_count(&self) -> (n: i32)
        ensures
            n == self@.array_count,
    {
        self.info.array_count
    }
}

/// The table of source files by code address.
#[derive(Debug)]
pub struct SMXDebugFilesTable {
    entries: Vec<DebugFileEntry>,
}

impl View for SMXDebugFilesTable {
    type V = Seq<DebugFileEntry>;

    closed spec fn view(&self) -> Seq<DebugFileEntry> {
        self.entries@
    }
}

impl Clone for SMXDebugFilesTable {
    fn clone(&self) -> (r: Self)
        ensures
            r@ == self@,
    {
        let entries = self.entries.clone();
        assert(entries@ =~= self.entries@);
        SMXDebugFilesTable { entries }
    }
}

impl SMXDebugFilesTable {
    /// Decodes the table of the given section, each name looked up in `names`.
    pub fn new(header: &SMXHeader, section: &SectionEntry, names: &mut SMXNameTable) -> (r: Result<
        Self,
        Error,
    >)
        requires
            old(names).wf(),
        ensures
            final(names).wf(),
            final(names).bytes() == old(names).bytes(),
            section_outcome(
                match r {
                    Ok(t) => Ok(t@),
                    Err(e) => Err(e),
                },
                header,
                section,
                old(names).bytes(),
            ),
    {
        let base = BaseSection::new(header, section);
        let data = base.get_data()?;
        let entries = DebugFileEntry::new(data.as_slice(), section, names)?;
        Ok(Self { entries })
    }

    /// The name of the file that covers `addr`; `None` where the first row
    /// begins after `addr` or there is no row.
    pub fn find_file(&self, addr: u32) -> (r: Option<String>)
        ensures
            match r {
                Some(name) => exists|i: int| #[trigger]
                    covers(self@, addr, i) && name == self@[i].name,
                None => precedes(self@, addr),
            },
    {
        match interval_lookup(&self.entries, addr) {
            Some(i) => {
                let name = self.entries[i].name.clone();
                assert(covers(self@, addr, i as int) && name == self@[i as int].name);
                Some(name)
            },
            None => None,
        }
    }

    /// A copy of the rows.
    pub fn entries(&self) -> (r: Vec<DebugFileEntry>)
        ensures
            r@ == self@,
    {
        let r = self.entries.clone();
        assert(r@ =~= self.entries@);
        r
    }

    /// A copy of the row at `index`.
    pub fn get_entry(&self, index: usize) -> (r: DebugFileEntry)
        requires
            index < self@.len(),
        ensures
            r == self@[index as int],
    {
        self.entries[index].clone()
    }

    /// The number of rows.
    pub fn len(&self) -> (n: usize)
        ensures
            n == self@.len(),
    {
        self.entries.len()
    }

    /// Whether the table holds no row.
    pub fn is_empty(&self) -> (b: bool)
        ensures
            b == (self@.len() == 0),
    {
        self.entries.is_empty()
    }
}

/// The table of source lines by code address.
#[derive(Debug)]
pub struct SMXDebugLinesTable {
    entries: Vec<DebugLineEntry>,
}

impl View for SMXDebugLinesTable {
    type V = Seq<DebugLineEntry>;

    closed spec fn view(&self) -> Seq<DebugLineEntry> {
        self.entries@
    }
}

impl Clone for SMXDebugLinesTable {
    fn clone(&self) -> (r: Self)
        ensures
            r@ == self@,
    {
        let entries = self.entries.clone();
        assert(entries@ =~= self.entries@);
        SMXDebugLinesTable { entries }
    }
}

/// The line that a row reports: the line it holds, counted from zero, plus
/// one, as a 32-bit number.
pub open spec fn reported_line(row: DebugLineEntry) -> u32 {
    if row.line == u32::MAX {
        0
    } else {
        (row.line + 1) as u32
    }
}

impl SMXDebugLinesTable {
    /// Decodes the table of the given section.
    pub fn new(header: &SMXHeader, section: &SectionEntry) -> (r: Result<Self, Error>)
        ensures
            match section_fault(header, section) {
                Some(e) => r == Err::<Self, Error>(e),
                None => plain_flat_outcome(
                    match r {
                        Ok(t) => Ok(t@),
                        Err(e) => Err(e),
                    },
                    section_bytes(header, section),
                    section.size as int,
                ),
            },
    {
        let base = BaseSection::new(header, section);
        let data = base.get_data()?;
        let entries = DebugLineEntry::new(data.as_slice(), section)?;
        Ok(Self { entries })
    }

    /// The line of the row that covers `addr`, counted from one; `None`
    /// where the first row begins after `addr` or there is no row.
    pub fn find_file(&self, addr: u32) -> (r: Option<u32>)
        ensures
            match r {
                Some(line) => exists|i: int| #[trigger]
                    covers(self@, addr, i) && line == reported_line(self@[i]),
                None => precedes(self@, addr),
            },
    {
        match interval_lookup(&self.entries, addr) {
            Some(i) => {
                let row = self.entries[i];
                let line = if row.line == u32::MAX {
                    0
                } else {
                    row.line + 1
                };
                assert(covers(self@, addr, i as int) && line == reported_line(self@[i as int]));
                Some(line)
            },
            None => None,
        }
    }

    /// A copy of the rows.
    pub fn entries(&self) -> (r: Vec<DebugLineEntry>)
        ensures
            r@ == self@,
    {
        let r = self.entries.clone();
        assert(r@ =~= self.entries@);
        r
    }

    /// A copy of the row at `index`.
    pub fn get_entry(&self, index: usize) -> (r: DebugLineEntry)
        requires
            index < self@.len(),
        ensures
            r == self@[index as int],
    {
        self.entries[index]
    }

    /// The number of rows.
    pub fn len(&self) -> (n: usize)
        ensures
            n == self@.len(),
    {
        self.entries.len()
    }

    /// Whether the table holds no row.
    pub fn is_empty(&self) -> (b: bool)
        ensures
            b == (self@.len() == 0),
    {
        self.entries.is_empty()
    }
}

/// The table of the methods that have debug information.
#[derive(Debug)]
pub struct SMXDebugMethods {
    entries: Vec<DebugMethodEntry>,
}

impl View for SMXDebugMethods {
    type V = Seq<DebugMethodEntry>;

    closed spec fn view(&self) -> Seq<DebugMethodEntry> {
        self.entries@
    }
}

impl Clone for SMXDebugMethods {
    fn clone(&self) -> (r: Self)
        ensures
            r@ == self@,
    {
        let entries = self.entries.clone();
        assert(entries@ =~= self.entries@);
        SMXDebugMethods { entries }
    }
}

impl SMXDebugMethods {
    /// Decodes the row table of the given section.
    pub fn new(header: &SMXHeader, section: &SectionEntry) -> (r: Result<Self, Error>)
        ensures
            plain_table_outcome(
                match r {
                    Ok(t) => Ok(t@),
                    Err(e) => Err(e),
                },
                header,
                section,
            ),
    {
        let entries = read_plain_table::<DebugMethodEntry>(header, section)?;
        Ok(Self { entries })
    }

    /// The rows themselves.
    pub fn entries_ref(&self) -> (r: &Vec<DebugMethodEntry>)
        ensures
            r@ == self@,
    {
        &self.entries
    }

    /// The number of rows.
    pub fn len(&self) -> (n: usize)
        ensures
            n == self@.len(),
    {
        self.entries.len()
    }
}

} // verus!
