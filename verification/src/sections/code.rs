//! The data section and the code section.

use vstd::prelude::*;
use vstd::slice::{slice_subrange, slice_to_vec};
use crate::errors::Error;
use crate::headers::{section_bytes, section_fault, SMXHeader, SectionEntry};
use crate::reader::readable;
use crate::records::PlainRecord;
use crate::sections::base::BaseSection;
use crate::v1types::{CodeV1Header, DataHeader};

verus! {

/// What is wrong with a range of `size` bytes at `start` in an image of
/// `len` bytes, where offsets may not pass `limit`: the start or the end is
/// no offset at all, or lies outside the image.
pub open spec fn range_fault(len: int, start: int, size: int, limit: int) -> Option<Error> {
    if start < 0 || start > limit {
        Some(Error::OffsetOverflow)
    } else if start > len {
        Some(Error::InvalidOffset)
    } else if size < 0 || start + size > limit {
        Some(Error::SizeOverflow)
    } else if start + size > len {
        Some(Error::InvalidSize)
    } else {
        None
    }
}

/// A copy of the range of `size` bytes at `start`, or its fault.
fn copy_range(data: &Vec<u8>, start: i64, size: i64, limit: i64) -> (r: Result<Vec<u8>, Error>)
    requires
        -0x1_0000_0000 <= start <= 0x2_0000_0000,
        -0x1_0000_0000 <= size <= 0x1_0000_0000,
        0 <= limit <= 0x1_0000_0000,
    ensures
        match range_fault(data@.len() as int, start as int, size as int, limit as int) {
            None => r is Ok && r->Ok_0@ == data@.subrange(start as int, start + size),
            Some(e) => r == Err::<Vec<u8>, Error>(e),
        },
{
    let len = data.len();
    if start < 0 || start > limit {
        return Err(Error::OffsetOverflow);
    }
    if start as u64 > len as u64 {
        return Err(Error::InvalidOffset);
    }
    if size < 0 || start + size > limit {
        return Err(Error::SizeOverflow);
    }
    if (start + size) as u64 > len as u64 {
        return Err(Error::InvalidSize);
    }
    let part = slice_subrange(data.as_slice(), start as usize, (start + size) as usize);
    Ok(slice_to_vec(part))
}

/// The data section: its header, and the data that the header points at.
#[derive(Debug, Clone, Copy)]
pub struct SMXDataSection<'a> {
    base: BaseSection<'a>,
    data_header: DataHeader,
}

impl<'a> SMXDataSection<'a> {
    /// The section that holds the data.
    pub closed spec fn base(&self) -> BaseSection<'a> {
        self.base
    }

    /// The header of the section.
    pub closed spec fn spec_header(&self) -> DataHeader {
        self.data_header
    }

    /// The offset in the image at which the data begins.
    pub open spec fn data_start(&self) -> int {
        self.base().entry().data_offset + self.spec_header().data_offset
    }

    /// Decodes the header of the given section. Fails with the fault of the
    /// section's place, or with the reader's error where the section is
    /// shorter than the header.
    pub fn new(header: &'a SMXHeader, section: &'a SectionEntry) -> (r: Result<Self, Error>)
        ensures
            match section_fault(header, section) {
                Some(e) => r == Err::<Self, Error>(e),
                None => if readable(section_bytes(header, section), 0, 12) {
                    r is Ok && r->Ok_0.base().image() == header && r->Ok_0.base().entry()
                        == section && r->Ok_0.spec_header() == DataHeader::decode(
                        section_bytes(header, section),
                        0,
                    )
                } else {
                    r is Err && r->Err_0 is Io
                },
            },
    {
        let base = BaseSection::new(header, section);
        let data = base.get_data()?;
        let data_header = DataHeader::new(data.as_slice())?;
        Ok(Self { base, data_header })
    }

    /// A copy of the data: as many bytes of the image as the header says,
    /// from the section's offset plus the offset in the header on. Offsets
    /// are unsigned 32-bit numbers.
    pub fn get_data_vec(&self) -> (r: Result<Vec<u8>, Error>)
        ensures
            match range_fault(
                self.base().image().data@.len() as int,
                self.data_start(),
                self.spec_header().data_size as int,
                u32::MAX as int,
            ) {
                None => r is Ok && r->Ok_0@ == self.base().image().data@.subrange(
                    self.data_start(),
                    self.data_start() + self.spec_header().data_size,
                ),
                Some(e) => r == Err::<Vec<u8>, Error>(e),
            },
    {
        let section = self.base.section();
        let start: i64 = section.data_offset as i64 + self.data_header.data_offset as i64;
        copy_range(&self.base.image_ref().data, start, self.data_header.data_size as i64, 0xffff_ffff)
    }

    /// The header of the section.
    pub fn header(&self) -> (h: DataHeader)
        ensures
            h == self.spec_header(),
    {
        self.data_header
    }
}

/// The code section: its header, and the code that the header points at.
#[derive(Debug, Clone, Copy)]
pub struct SMXCodeV1Section<'a> {
    base: BaseSection<'a>,
    code_header: CodeV1Header,
}

impl<'a> SMXCodeV1Section<'a> {
    /// The section that holds the code.
    pub closed spec fn base(&self) -> BaseSection<'a> {
        self.base
    }

    /// The header of the section.
    pub closed spec fn spec_header(&self) -> CodeV1Header {
        self.code_header
    }

    /// The offset in the image at which the code begins.
    pub open spec fn data_start(&self) -> int {
        self.base().entry().data_offset + self.spec_header().code_offset
    }

    /// Decodes the header of the given section. Fails with the fault of the
    /// section's place, or with the reader's error where the section is
    /// shorter than the header.
    pub fn new(header: &'a SMXHeader, section: &'a SectionEntry) -> (r: Result<Self, Error>)
        ensures
            match section_fault(header, section) {
                Some(e) => r == Err::<Self, Error>(e),
                None => {
                    let data = section_bytes(header, section);
                    if readable(data, 0, CodeV1Header::width(data)) {
                        r is Ok && r->Ok_0.base().image() == header && r->Ok_0.base().entry()
                            == section && r->Ok_0.spec_header() == CodeV1Header::decode(data)
                    } else {
                        r is Err && r->Err_0 is Io
                    }
                },
            },
    {
        let base = BaseSection::new(header, section);
        let data = base.get_data()?;
        let code_header = CodeV1Header::new(data.as_slice())?;
        Ok(Self { base, code_header })
    }

    /// A copy of the code: as many bytes of the image as the header says,
    /// from the section's offset plus the offset in the header on. Offsets
    /// are signed 32-bit numbers.
    pub fn get_data_vec(&self) -> (r: Result<Vec<u8>, Error>)
        ensures
            match range_fault(
                self.base().image().data@.len() as int,
                self.data_start(),
                self.spec_header().code_size as int,
                i32::MAX as int,
            ) {
                None => r is Ok && r->Ok_0@ == self.base().image().data@.subrange(
                    self.data_start(),
                    self.data_start() + self.spec_header().code_size,
                ),
                Some(e) => r == Err::<Vec<u8>, Error>(e),
            },
    {
        let section = self.base.section();
        let start: i64 = section.data_offset as i64 + self.code_header.code_offset as i64;
        copy_range(&self.base.image_ref().data, start, self.code_header.code_size as i64, 0x7fff_ffff)
    }

    /// The header of the section.
    pub fn header(&self) -> (h: CodeV1Header)
        ensures
            h == self.spec_header(),
    {
        self.code_header
    }

    /// The address at which the code begins: the offset of the image's data
    /// plus the offset in the header. Fails with `OffsetOverflow` where
    /// that sum is no signed 32-bit number.
    pub fn code_start(&self) -> (r: Result<i32, Error>)
        ensures
            ({
                let sum = self.base().image().data_offset + self.spec_header().code_offset;
                if i32::MIN <= sum <= i32::MAX {
                    r == Ok::<i32, Error>(sum as i32)
                } else {
                    r == Err::<i32, Error>(Error::OffsetOverflow)
                }
            }),
    {
        match self.base.image_ref().data_offset.checked_add(self.code_header.code_offset) {
            Some(sum) => Ok(sum),
            None => Err(Error::OffsetOverflow),
        }
    }
}

} // verus!
