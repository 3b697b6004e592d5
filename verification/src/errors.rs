//! The error type shared by every decoder of this crate.

use vstd::prelude::*;
use vstd::string::StringExecFns;

verus! {

/// An I/O error of the standard library, carried through undecoded.
#[verifier::external_type_specification]
#[verifier::external_body]
pub struct ExIoError(std::io::Error);

/// What can go wrong while an image is decoded.
#[derive(Debug)]
pub enum Error {
    /// A read failed; for reads from memory, it ran past the end of the bytes.
    Io(std::io::Error),
    InvalidMagic,
    InvalidSize,
    InvalidOffset,
    InvalidIndex,
    OffsetOverflow,
    SizeOverflow,
    Other(&'static str),
}

/// `std::error::Error::description` of an I/O error: the short text that the
/// standard library has for it. Nothing is claimed of the text.
#[verifier::external_body]
#[allow(deprecated)]
fn io_description(inner: &std::io::Error) -> (text: &str) {
    std::error::Error::description(inner)
}

/// `ToString::to_string` of an I/O error: the text that the standard
/// library prints for it. Nothing is claimed of the text.
#[verifier::external_body]
fn io_text(inner: &std::io::Error) -> (text: String) {
    inner.to_string()
}

impl From<std::io::Error> for Error {
    fn from(err: std::io::Error) -> (e: Error) {
        Error::Io(err)
    }
}

impl vstd::std_specs::convert::FromSpecImpl<std::io::Error> for Error {
    open spec fn obeys_from_spec() -> bool {
        true
    }

    open spec fn from_spec(err: std::io::Error) -> Error {
        Error::Io(err)
    }
}

impl Error {
    /// The short description of each error but an I/O error, whose
    /// description is that of the standard library.
    pub open spec fn spec_description(&self) -> Option<Seq<char>> {
        match *self {
            Error::Io(_) => None,
            Error::InvalidMagic => Some("Invalid magic header"@),
            Error::InvalidSize => Some("Invalid size"@),
            Error::InvalidOffset => Some("Invalid offset"@),
            Error::InvalidIndex => Some("Invalid index"@),
            Error::OffsetOverflow => Some("Offset overflow"@),
            Error::SizeOverflow => Some("Size overflow"@),
            Error::Other(msg) => Some(msg@),
        }
    }

    /// A short description of the error.
    pub fn description(&self) -> (text: &str)
        ensures
            self.spec_description() matches Some(t) ==> text@ == t,
    {
        match self {
            Error::Io(inner) => io_description(inner),
            Error::InvalidMagic => "Invalid magic header",
            Error::InvalidSize => "Invalid size",
            Error::InvalidOffset => "Invalid offset",
            Error::InvalidIndex => "Invalid index",
            Error::OffsetOverflow => "Offset overflow",
            Error::SizeOverflow => "Size overflow",
            Error::Other(msg) => msg,
        }
    }

    /// The text that stands for the error where it is printed: that of the
    /// standard library for an I/O error, and `dnno` for every other.
    pub fn to_string(&self) -> (text: String)
        ensures
            !(self is Io) ==> text@ == "dnno"@,
    {
        match self {
            Error::Io(inner) => io_text(inner),
            _ => String::from_str("dnno"),
        }
    }
}

} // verus!
