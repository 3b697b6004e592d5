//! Little-endian reads over a byte slice with a read position.

use vstd::prelude::*;
use vstd::slice::slice_subrange;
use byteorder::{LittleEndian, ReadBytesExt};
use crate::errors::Error;

verus! {

/// The unsigned value of the two bytes of `s` at `pos`, least significant first.
pub open spec fn le_u16(s: Seq<u8>, pos: int) -> int
    recommends
        0 <= pos,
        pos + 2 <= s.len(),
{
    s[pos] as int + 0x100 * (s[pos + 1] as int)
}

/// The unsigned value of the four bytes of `s` at `pos`, least significant first.
pub open spec fn le_u32(s: Seq<u8>, pos: int) -> int
    recommends
        0 <= pos,
        pos + 4 <= s.len(),
{
    s[pos] as int + 0x100 * (s[pos + 1] as int) + 0x1_0000 * (s[pos + 2] as int) + 0x100_0000 * (
    s[pos + 3] as int)
}

/// The value of a 32-bit pattern read as two's complement.
pub open spec fn signed32(v: int) -> int {
    if v < 0x8000_0000 {
        v
    } else {
        v - 0x1_0000_0000
    }
}

/// The signed value of the four bytes of `s` at `pos`, least significant first.
pub open spec fn le_i32(s: Seq<u8>, pos: int) -> int
    recommends
        0 <= pos,
        pos + 4 <= s.len(),
{
    signed32(le_u32(s, pos))
}

/// Whether `n` bytes can be read from `s` at `pos`.
pub open spec fn readable(s: Seq<u8>, pos: int, n: int) -> bool {
    0 <= pos && pos + n <= s.len()
}

/// `ReadBytesExt::read_u8` on a byte slice: the first byte, or the reader's
/// error when the slice is empty.
#[verifier::external_body]
fn first_u8(bytes: &[u8]) -> (r: Result<u8, std::io::Error>)
    ensures
        bytes@.len() >= 1 ==> r is Ok && r->Ok_0 == bytes@[0],
        bytes@.len() < 1 ==> r is Err,
{
    let mut rest: &[u8] = bytes;
    rest.read_u8()
}

/// `ReadBytesExt::read_u16::<LittleEndian>` on a byte slice: the little-endian
/// value of the first two bytes, or the reader's error when there are fewer.
#[verifier::external_body]
fn first_u16_le(bytes: &[u8]) -> (r: Result<u16, std::io::Error>)
    ensures
        bytes@.len() >= 2 ==> r is Ok && r->Ok_0 as int == le_u16(bytes@, 0),
        bytes@.len() < 2 ==> r is Err,
{
    let mut rest: &[u8] = bytes;
    rest.read_u16::<LittleEndian>()
}

/// `ReadBytesExt::read_u32::<LittleEndian>` on a byte slice: the little-endian
/// value of the first four bytes, or the reader's error when there are fewer.
#[verifier::external_body]
fn first_u32_le(bytes: &[u8]) -> (r: Result<u32, std::io::Error>)
    ensures
        bytes@.len() >= 4 ==> r is Ok && r->Ok_0 as int == le_u32(bytes@, 0),
        bytes@.len() < 4 ==> r is Err,
{
    let mut rest: &[u8] = bytes;
    rest.read_u32::<LittleEndian>()
}

/// `ReadBytesExt::read_i32::<LittleEndian>` on a byte slice: the first four
/// bytes, least significant first, as two's complement; or the reader's error
/// when there are fewer.
#[verifier::external_body]
fn first_i32_le(bytes: &[u8]) -> (r: Result<i32, std::io::Error>)
    ensures
        bytes@.len() >= 4 ==> r is Ok && r->Ok_0 as int == le_i32(bytes@, 0),
        bytes@.len() < 4 ==> r is Err,
{
    let mut rest: &[u8] = bytes;
    rest.read_i32::<LittleEndian>()
}

/// A read position over borrowed bytes. The position may stand past the end;
/// every read from there fails and leaves the position where it was.
#[derive(Debug, Clone, Copy)]
pub struct ByteCursor<'a> {
    pub data: &'a [u8],
    pub pos: u64,
}

impl<'a> ByteCursor<'a> {
    /// Whether `n` bytes can be read at the position.
    pub open spec fn can_read(&self, n: int) -> bool {
        readable(self.data@, self.pos as int, n)
    }

    /// The state after `n` bytes were consumed.
    pub open spec fn advanced(&self, before: Self, n: int) -> bool {
        self.data@ == before.data@ && self.pos == before.pos + n
    }

    pub fn new(data: &'a [u8]) -> (c: Self)
        ensures
            c.data@ == data@,
            c.pos == 0,
    {
        ByteCursor { data, pos: 0 }
    }

    /// A cursor over `data` that stands at `pos`.
    pub fn at(data: &'a [u8], pos: u64) -> (c: Self)
        ensures
            c.data@ == data@,
            c.pos == pos,
    {
        ByteCursor { data, pos }
    }

    pub fn position(&self) -> (p: u64)
        ensures
            p == self.pos,
    {
        self.pos
    }

    fn remaining(&self) -> (s: &'a [u8])
        ensures
            self.pos <= self.data@.len() ==> s@ == self.data@.subrange(
                self.pos as int,
                self.data@.len() as int,
            ),
            self.pos > self.data@.len() ==> s@.len() == 0,
            self.data@.len() <= usize::MAX,
    {
        let len = self.data.len();
        if self.pos <= len as u64 {
            slice_subrange(self.data, self.pos as usize, len)
        } else {
            slice_subrange(self.data, len, len)
        }
    }

    /// Reads one byte and moves past it.
    pub fn read_u8(&mut self) -> (r: Result<u8, Error>)
        ensures
            old(self).can_read(1) ==> r is Ok && r->Ok_0 == old(self).data@[old(self).pos as int]
                && final(self).advanced(*old(self), 1),
            !old(self).can_read(1) ==> r is Err && r->Err_0 is Io && *final(self) == *old(self),
    {
        let rest = self.remaining();
        match first_u8(rest) {
            Ok(v) => {
                assert(rest@.len() >= 1);
                self.pos = self.pos + 1;
                Ok(v)
            },
            Err(e) => Err(Error::Io(e)),
        }
    }

    /// Reads two bytes as an unsigned little-endian number and moves past them.
    pub fn read_u16(&mut self) -> (r: Result<u16, Error>)
        ensures
            old(self).can_read(2) ==> r is Ok && r->Ok_0 as int == le_u16(
                old(self).data@,
                old(self).pos as int,
            ) && final(self).advanced(*old(self), 2),
            !old(self).can_read(2) ==> r is Err && r->Err_0 is Io && *final(self) == *old(self),
    {
        let rest = self.remaining();
        match first_u16_le(rest) {
            Ok(v) => {
                assert(rest@.len() >= 2);
                self.pos = self.pos + 2;
                Ok(v)
            },
            Err(e) => Err(Error::Io(e)),
        }
    }

    /// Reads four bytes as an unsigned little-endian number and moves past them.
    pub fn read_u32(&mut self) -> (r: Result<u32, Error>)
        ensures
            old(self).can_read(4) ==> r is Ok && r->Ok_0 as int == le_u32(
                old(self).data@,
                old(self).pos as int,
            ) && final(self).advanced(*old(self), 4),
            !old(self).can_read(4) ==> r is Err && r->Err_0 is Io && *final(self) == *old(self),
    {
        let rest = self.remaining();
        match first_u32_le(rest) {
            Ok(v) => {
                assert(rest@.len() >= 4);
                self.pos = self.pos + 4;
                Ok(v)
            },
            Err(e) => Err(Error::Io(e)),
        }
    }

    /// Reads four bytes as a signed little-endian number and moves past them.
    pub fn read_i32(&mut self) -> (r: Result<i32, Error>)
        ensures
            old(self).can_read(4) ==> r is Ok && r->Ok_0 as int == le_i32(
                old(self).data@,
                old(self).pos as int,
            ) && final(self).advanced(*old(self), 4),
            !old(self).can_read(4) ==> r is Err && r->Err_0 is Io && *final(self) == *old(self),
    {
        let rest = self.remaining();
        match first_i32_le(rest) {
            Ok(v) => {
                assert(rest@.len() >= 4);
                self.pos = self.pos + 4;
                Ok(v)
            },
            Err(e) => Err(Error::Io(e)),
        }
    }

    /// Moves the position `n` bytes on without reading; the new position may
    /// stand past the end.
    pub fn skip(&mut self, n: u64)
        requires
            old(self).pos + n <= u64::MAX,
        ensures
            final(self).advanced(*old(self), n as int),
    {
        self.pos = self.pos + n;
    }
}

} // verus!
