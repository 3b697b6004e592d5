//! The raw view of one section.

use vstd::prelude::*;
use vstd::slice::slice_subrange;
use vstd::slice::slice_to_vec;
use crate::errors::Error;
use crate::headers::{section_bytes, section_fault, SMXHeader, SectionEntry};

verus! {

/// One section of an image, not yet decoded.
#[derive(Debug, Clone, Copy)]
pub struct BaseSection<'a> {
    header: &'a SMXHeader,
    section: &'a SectionEntry,
}

impl<'a> BaseSection<'a> {
    /// The image that the section belongs to.
    pub closed spec fn image(&self) -> &'a SMXHeader {
        self.header
    }

    /// The place of the section in its image.
    pub closed spec fn entry(&self) -> &'a SectionEntry {
        self.section
    }

    pub fn new(header: &'a SMXHeader, section: &'a SectionEntry) -> (b: Self)
        ensures
            b.image() == header,
            b.entry() == section,
    {
        BaseSection { header, section }
    }

    /// The image that the section belongs to.
    pub fn image_ref(&self) -> (h: &'a SMXHeader)
        ensures
            h == self.image(),
    {
        self.header
    }

    /// The section's place in the image.
    pub fn section(&self) -> (s: SectionEntry)
        ensures
            s == *self.entry(),
    {
        *self.section
    }

    /// A copy of the section's bytes; the fault of its place where it does
    /// not lie inside the image.
    pub fn get_data(&self) -> (r: Result<Vec<u8>, Error>)
        ensures
            match section_fault(self.image(), self.entry()) {
                None => r is Ok && r->Ok_0@ == section_bytes(self.image(), self.entry()),
                Some(e) => r == Err::<Vec<u8>, Error>(e),
            },
    {
        let len = self.header.data.len();
        let offset = self.section.data_offset;
        let size = self.section.size;
        if offset < 0 || offset as usize > len {
            return Err(Error::InvalidOffset);
        }
        if size < 0 || size as usize > len - offset as usize {
            return Err(Error::InvalidSize);
        }
        let start = offset as usize;
        let part = slice_subrange(self.header.data.as_slice(), start, start + size as usize);
        Ok(slice_to_vec(part))
    }
}

} // verus!
