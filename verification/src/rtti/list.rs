//! The header that every row table begins with.

use vstd::prelude::*;
use crate::errors::Error;
use crate::headers::{SMXHeader, SectionEntry};
use crate::reader::{le_u32, readable, ByteCursor};
use crate::records::{
    plain_outcome, read_plain_rows, read_rows, rows_outcome, PlainRecord, Record,
};
use crate::sections::base::BaseSection;
use crate::sections::names::SMXNameTable;

verus! {

/// The number of bytes that the header of a row table takes.
pub const ROW_TABLE_HEADER_SIZE: u64 = 12;

/// The header of a row table: three numbers that say how large the header
/// is, how large one row is and how many rows follow.
#[derive(Debug, Clone, Copy)]
pub struct SMXRTTIListTable<'b> {
    base: BaseSection<'b>,
    header_size: u32,
    row_size: u32,
    row_count: u32,
}

/// Reading the header and then every row of a table leaves no drift: where
/// the header says its own size, twelve, and says the width of a row as the
/// size of a row, the rows end at the size of the header plus the number of
/// rows times the size of a row.
pub proof fn lemma_rows_end(table: SMXRTTIListTable, width: nat)
    requires
        table.fields().0 == ROW_TABLE_HEADER_SIZE,
        table.fields().1 == width,
    ensures
        table.rows_end(width) == table.fields().0 + table.fields().2 * table.fields().1,
{
}

impl<'b> SMXRTTIListTable<'b> {
    /// The section that the table lies in.
    pub closed spec fn base(&self) -> BaseSection<'b> {
        self.base
    }

    /// The three numbers of the header: the size of the header, the size of
    /// a row, the number of rows.
    pub closed spec fn fields(&self) -> (u32, u32, u32) {
        (self.header_size, self.row_size, self.row_count)
    }

    /// The end of the rows of a table whose rows are `width` bytes wide and
    /// follow its header at once: the number of bytes that reading the
    /// header and then every row consumes.
    pub open spec fn rows_end(&self, width: nat) -> int {
        ROW_TABLE_HEADER_SIZE + self.fields().2 * width
    }

    /// A header for the table of the given section, with all three numbers
    /// zero until `init` reads them.
    pub fn new(header: &'b SMXHeader, section: &'b SectionEntry) -> (t: Self)
        ensures
            t.base().image() == header,
            t.base().entry() == section,
            t.fields() == (0u32, 0u32, 0u32),
    {
        Self { base: BaseSection::new(header, section), header_size: 0, row_size: 0, row_count: 0 }
    }

    /// Reads the three numbers from the first twelve bytes of `data`. With
    /// fewer bytes the read fails with the reader's error; the numbers that
    /// could be read are set, the others stay.
    pub fn init(&mut self, data: &[u8]) -> (r: Result<&Self, Error>)
        ensures
            final(self).base() == old(self).base(),
            final(self).fields() == (
                if readable(data@, 0, 4) {
                    le_u32(data@, 0) as u32
                } else {
                    old(self).fields().0
                },
                if readable(data@, 0, 8) {
                    le_u32(data@, 4) as u32
                } else {
                    old(self).fields().1
                },
                if readable(data@, 0, 12) {
                    le_u32(data@, 8) as u32
                } else {
                    old(self).fields().2
                },
            ),
            readable(data@, 0, 12) ==> r is Ok && *r->Ok_0 == *final(self),
            !readable(data@, 0, 12) ==> r is Err && r->Err_0 is Io,
    {
        let mut cursor = ByteCursor::new(data);
        self.header_size = cursor.read_u32()?;
        self.row_size = cursor.read_u32()?;
        self.row_count = cursor.read_u32()?;
        Ok(self)
    }

    /// Reads the header from the first twelve bytes of `data` and then, one
    /// after the other, as many rows as it says. Gives the rows and the
    /// number of bytes that were consumed: the header and every row. For a
    /// header that says its own size, twelve, and the width of a row as the
    /// size of a row, that number is the size of the header and the size of
    /// a row times the number of rows.
    pub fn read_rows<R: Record>(&mut self, data: &[u8], names: &mut SMXNameTable) -> (r: Result<
        (Vec<R>, u64),
        Error,
    >)
        requires
            old(names).wf(),
            R::width() <= 0xffff_ffff,
        ensures
            final(self).base() == old(self).base(),
            final(names).wf(),
            final(names).bytes() == old(names).bytes(),
            !readable(data@, 0, 12) ==> r is Err && r->Err_0 is Io,
            readable(data@, 0, 12) ==> final(self).fields() == (
                le_u32(data@, 0) as u32,
                le_u32(data@, 4) as u32,
                le_u32(data@, 8) as u32,
            ) && rows_outcome(
                match r {
                    Ok(done) => Ok(done.0@),
                    Err(e) => Err(e),
                },
                data@,
                12,
                le_u32(data@, 8),
                old(names).bytes(),
            ),
            r is Ok ==> r->Ok_0.1 == final(self).rows_end(R::width()),
            r is Ok ==> ({
                let (header_size, row_size, row_count) = final(self).fields();
                header_size == 12 && row_size == R::width() ==> r->Ok_0.1 == header_size
                    + row_count * row_size
            }),
    {
        self.init(data)?;
        let count = self.row_count;
        assert(12 + count * R::width() <= u64::MAX) by (nonlinear_arith)
            requires
                count <= 0xffff_ffff,
                R::width() <= 0xffff_ffff,
        ;
        let mut cursor = ByteCursor::at(data, ROW_TABLE_HEADER_SIZE);
        let rows = read_rows::<R>(&mut cursor, count, names)?;
        Ok((rows, cursor.position()))
    }

    /// As `read_rows`, for rows that hold numbers only.
    pub fn read_plain_rows<R: PlainRecord>(&mut self, data: &[u8]) -> (r: Result<
        (Vec<R>, u64),
        Error,
    >)
        requires
            R::width() <= 0xffff_ffff,
        ensures
            final(self).base() == old(self).base(),
            !readable(data@, 0, 12) ==> r is Err && r->Err_0 is Io,
            readable(data@, 0, 12) ==> final(self).fields() == (
                le_u32(data@, 0) as u32,
                le_u32(data@, 4) as u32,
                le_u32(data@, 8) as u32,
            ) && plain_outcome(
                match r {
                    Ok(done) => Ok(done.0@),
                    Err(e) => Err(e),
                },
                data@,
                12,
                le_u32(data@, 8),
            ),
            r is Ok ==> r->Ok_0.1 == final(self).rows_end(R::width()),
            r is Ok ==> ({
                let (header_size, row_size, row_count) = final(self).fields();
                header_size == 12 && row_size == R::width() ==> r->Ok_0.1 == header_size
                    + row_count * row_size
            }),
    {
        self.init(data)?;
        let count = self.row_count;
        assert(12 + count * R::width() <= u64::MAX) by (nonlinear_arith)
            requires
                count <= 0xffff_ffff,
                R::width() <= 0xffff_ffff,
        ;
        let mut cursor = ByteCursor::at(data, ROW_TABLE_HEADER_SIZE);
        let rows = read_plain_rows::<R>(&mut cursor, count)?;
        Ok((rows, cursor.position()))
    }

    pub fn header_size(&self) -> (n: u32)
        ensures
            n == self.fields().0,
    {
        self.header_size
    }

    pub fn row_size(&self) -> (n: u32)
        ensures
            n == self.fields().1,
    {
        self.row_size
    }

    pub fn row_count(&self) -> (n: u32)
        ensures
            n == self.fields().2,
    {
        self.row_count
    }
}

} // verus!
