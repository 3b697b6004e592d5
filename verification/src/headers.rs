//! What the loader of an image hands to the table decoders: the image's
//! bytes and the place of each section in them.

use vstd::prelude::*;
use crate::errors::Error;

verus! {

/// The loaded image: its bytes, decompressed, and where its data begins.
#[derive(Debug)]
pub struct SMXHeader {
    pub data: Vec<u8>,
    pub data_offset: i32,
}

/// Where one section lies in the image.
#[derive(Debug, Clone, Copy, PartialEq, Eq, Structural)]
pub struct SectionEntry {
    pub name_offset: i32,
    pub data_offset: i32,
    pub size: i32,
}

/// What is wrong with a section's place in the image, if anything: its
/// offset must lie inside the image, and its bytes must end inside it.
pub open spec fn section_fault(header: &SMXHeader, section: &SectionEntry) -> Option<Error> {
    if section.data_offset < 0 || section.data_offset > header.data@.len() {
        Some(Error::InvalidOffset)
    } else if section.size < 0 || section.data_offset + section.size > header.data@.len() {
        Some(Error::InvalidSize)
    } else {
        None
    }
}

/// The bytes of a section that lies inside the image.
pub open spec fn section_bytes(header: &SMXHeader, section: &SectionEntry) -> Seq<u8>
    recommends
        section_fault(header, section) is None,
{
    header.data@.subrange(
        section.data_offset as int,
        section.data_offset as int + section.size as int,
    )
}

impl SMXHeader {
    pub fn new(data: Vec<u8>, data_offset: i32) -> (h: Self)
        ensures
            h.data == data,
            h.data_offset == data_offset,
    {
        SMXHeader { data, data_offset }
    }
}

impl SectionEntry {
    pub fn new(name_offset: i32, data_offset: i32, size: i32) -> (s: Self)
        ensures
            s == (SectionEntry { name_offset, data_offset, size }),
    {
        SectionEntry { name_offset, data_offset, size }
    }
}

} // verus!
