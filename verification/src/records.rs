//! Fixed-width records and the reading of a run of them.

use vstd::prelude::*;
use crate::errors::Error;
use crate::reader::{le_i32, readable, ByteCursor};
use crate::sections::names::SMXNameTable;

verus! {

/// Why a record cannot be decoded.
pub enum RowFault {
    /// The bytes end inside the record.
    Truncated,
    /// A name offset of the record lies outside the name table.
    BadName,
}

impl RowFault {
    /// Whether `e` is the error that reports this fault.
    pub open spec fn reported_by(self, e: Error) -> bool {
        match self {
            RowFault::Truncated => e is Io,
            RowFault::BadName => e == Error::InvalidIndex,
        }
    }
}

/// What keeps a record from being decoded whose first field is the offset of
/// its name, looked up before the rest of its `read` bytes are read.
pub open spec fn name_first_fault(data: Seq<u8>, pos: int, names: Seq<u8>, read: int) -> Option<
    RowFault,
> {
    if !readable(data, pos, 4) {
        Some(RowFault::Truncated)
    } else if !(0 <= le_i32(data, pos) < names.len()) {
        Some(RowFault::BadName)
    } else if !readable(data, pos, read) {
        Some(RowFault::Truncated)
    } else {
        None
    }
}

/// What keeps a record from being decoded whose `read` bytes are all read
/// before its name, whose offset is the field at `field`, is looked up.
pub open spec fn name_last_fault(
    data: Seq<u8>,
    pos: int,
    names: Seq<u8>,
    field: int,
    read: int,
) -> Option<RowFault> {
    if !readable(data, pos, read) {
        Some(RowFault::Truncated)
    } else if !(0 <= le_i32(data, pos + field) < names.len()) {
        Some(RowFault::BadName)
    } else {
        None
    }
}

/// A record of fixed width whose names, if it has any, are offsets into a
/// name table.
pub trait Record: Sized {
    /// The number of bytes that one record takes.
    spec fn width() -> nat;

    /// What keeps the record at `pos` from being decoded, if anything.
    spec fn fault_at(data: Seq<u8>, pos: int, names: Seq<u8>) -> Option<RowFault>;

    /// Whether `self` is the record that the bytes at `pos` say.
    spec fn decodes(&self, data: Seq<u8>, pos: int, names: Seq<u8>) -> bool;

    /// Reads the record at the cursor and moves the cursor past it.
    fn read(cursor: &mut ByteCursor, names: &mut SMXNameTable) -> (r: Result<Self, Error>)
        requires
            old(names).wf(),
            old(cursor).pos + Self::width() <= u64::MAX,
        ensures
            final(names).wf(),
            final(names).bytes() == old(names).bytes(),
            final(cursor).data@ == old(cursor).data@,
            match Self::fault_at(old(cursor).data@, old(cursor).pos as int, old(names).bytes()) {
                None => r is Ok && r->Ok_0.decodes(
                    old(cursor).data@,
                    old(cursor).pos as int,
                    old(names).bytes(),
                ) && final(cursor).pos == old(cursor).pos + Self::width(),
                Some(fault) => r is Err && fault.reported_by(r->Err_0),
            },
    ;
}

/// Whether `count` records in a row, the first at `start`, can all be decoded.
pub open spec fn rows_sound<R: Record>(
    data: Seq<u8>,
    start: int,
    count: int,
    names: Seq<u8>,
) -> bool {
    forall|i: int|
        0 <= i < count ==> (#[trigger] R::fault_at(data, start + i * R::width(), names)) is None
}

/// Whether `rows` are the records that lie in a row from `start` on.
pub open spec fn rows_decode<R: Record>(
    rows: Seq<R>,
    data: Seq<u8>,
    start: int,
    names: Seq<u8>,
) -> bool {
    forall|i: int|
        0 <= i < rows.len() ==> (#[trigger] rows[i]).decodes(data, start + i * R::width(), names)
}

/// Whether, of `count` records in a row from `start` on, the first that
/// cannot be decoded has the given fault.
pub open spec fn rows_fail<R: Record>(
    data: Seq<u8>,
    start: int,
    count: int,
    names: Seq<u8>,
    fault: RowFault,
) -> bool {
    exists|i: int|
        0 <= i < count && rows_sound::<R>(data, start, i, names) && (#[trigger] R::fault_at(
            data,
            start + i * R::width(),
            names,
        )) == Some(fault)
}

/// Whether `r` is the outcome of reading `count` records in a row from
/// `start` on: all of them in order, or the error of the first that cannot
/// be decoded.
pub open spec fn rows_outcome<R: Record>(
    r: Result<Seq<R>, Error>,
    data: Seq<u8>,
    start: int,
    count: int,
    names: Seq<u8>,
) -> bool {
    match r {
        Ok(rows) => rows.len() == count && rows_sound::<R>(data, start, count, names)
            && rows_decode(rows, data, start, names),
        Err(e) => exists|fault: RowFault| #[trigger]
            rows_fail::<R>(data, start, count, names, fault) && fault.reported_by(e),
    }
}

/// The view of a result that holds a list of records.
pub open spec fn rows_of<R>(r: Result<Vec<R>, Error>) -> Result<Seq<R>, Error> {
    match r {
        Ok(rows) => Ok(rows@),
        Err(e) => Err(e),
    }
}

/// Reads `count` records in a row, the first at the cursor. The cursor ends
/// behind the last of them: it has moved by `count` times the width of one.
/// Where a record cannot be decoded the cursor stays where it was.
pub fn read_rows<R: Record>(cursor: &mut ByteCursor, count: u32, names: &mut SMXNameTable) -> (r:
    Result<Vec<R>, Error>)
    requires
        old(names).wf(),
        old(cursor).pos + count * R::width() <= u64::MAX,
    ensures
        final(names).wf(),
        final(names).bytes() == old(names).bytes(),
        final(cursor).data@ == old(cursor).data@,
        rows_outcome(
            rows_of(r),
            old(cursor).data@,
            old(cursor).pos as int,
            count as int,
            old(names).bytes(),
        ),
        r is Ok ==> final(cursor).pos == old(cursor).pos + count * R::width(),
        r is Err ==> *final(cursor) == *old(cursor),
{
    let ghost data = cursor.data@;
    let ghost start = cursor.pos as int;
    let ghost pool = names.bytes();
    let mut work = *cursor;
    let mut rows: Vec<R> = Vec::new();
    let mut i: u32 = 0;
    while i < count
        invariant
            i <= count,
            names.wf(),
            names.bytes() == pool,
            pool == old(names).bytes(),
            data == old(cursor).data@,
            start == old(cursor).pos,
            *cursor == *old(cursor),
            work.data@ == data,
            work.pos == start + i * R::width(),
            start + count * R::width() <= u64::MAX,
            rows@.len() == i,
            rows_sound::<R>(data, start, i as int, pool),
            rows_decode(rows@, data, start, pool),
        decreases count - i,
    {
        proof {
            assert(start + (i + 1) * R::width() <= start + count * R::width()) by (nonlinear_arith)
                requires
                    i + 1 <= count,
            ;
            assert((i + 1) * R::width() == i * R::width() + R::width()) by (nonlinear_arith);
        }
        match R::read(&mut work, names) {
            Ok(row) => {
                rows.push(row);
            },
            Err(e) => {
                proof {
                    let fault = R::fault_at(data, start + i * R::width(), pool)->Some_0;
                    assert(rows_fail::<R>(data, start, count as int, pool, fault));
                }
                return Err(e);
            },
        }
        i = i + 1;
    }
    *cursor = work;
    Ok(rows)
}

/// A record of fixed width that holds numbers only.
pub trait PlainRecord: Sized {
    /// The number of bytes that one record takes.
    spec fn width() -> nat;

    /// The record that the bytes at `pos` say.
    spec fn decode(data: Seq<u8>, pos: int) -> Self;

    /// Reads the record at the cursor and moves the cursor past it. Fails
    /// with the reader's error where the bytes end inside the record.
    fn read(cursor: &mut ByteCursor) -> (r: Result<Self, Error>)
        requires
            old(cursor).pos + Self::width() <= u64::MAX,
        ensures
            final(cursor).data@ == old(cursor).data@,
            old(cursor).can_read(Self::width() as int) ==> r == Ok::<Self, Error>(
                Self::decode(old(cursor).data@, old(cursor).pos as int),
            ) && final(cursor).pos == old(cursor).pos + Self::width(),
            !old(cursor).can_read(Self::width() as int) ==> r is Err && r->Err_0 is Io,
    ;
}

/// The `count` records that lie in a row from `start` on.
pub open spec fn plain_rows<R: PlainRecord>(data: Seq<u8>, start: int, count: int) -> Seq<R> {
    Seq::new(count as nat, |i: int| R::decode(data, start + i * R::width()))
}

/// Whether `r` is the outcome of reading `count` plain records in a row
/// from `start` on: all of them in order, or the reader's error where the
/// bytes end before the last of them does.
pub open spec fn plain_outcome<R: PlainRecord>(
    r: Result<Seq<R>, Error>,
    data: Seq<u8>,
    start: int,
    count: int,
) -> bool {
    if count <= 0 || readable(data, start, count * R::width()) {
        r == Ok::<Seq<R>, Error>(plain_rows(data, start, count))
    } else {
        r is Err && r->Err_0 is Io
    }
}

/// Reads `count` plain records in a row, the first at the cursor. The cursor
/// ends behind the last of them: it has moved by `count` times the width of
/// one. Where the bytes end too early the cursor stays where it was.
pub fn read_plain_rows<R: PlainRecord>(cursor: &mut ByteCursor, count: u32) -> (r: Result<
    Vec<R>,
    Error,
>)
    requires
        old(cursor).pos + count * R::width() <= u64::MAX,
    ensures
        final(cursor).data@ == old(cursor).data@,
        plain_outcome(rows_of(r), old(cursor).data@, old(cursor).pos as int, count as int),
        r is Ok ==> final(cursor).pos == old(cursor).pos + count * R::width(),
        r is Err ==> *final(cursor) == *old(cursor),
{
    let ghost data = cursor.data@;
    let ghost start = cursor.pos as int;
    let mut work = *cursor;
    let mut rows: Vec<R> = Vec::new();
    let mut i: u32 = 0;
    while i < count
        invariant
            i <= count,
            data == old(cursor).data@,
            start == old(cursor).pos,
            *cursor == *old(cursor),
            work.data@ == data,
            work.pos == start + i * R::width(),
            start + count * R::width() <= u64::MAX,
            i > 0 ==> readable(data, start, i * R::width()),
            rows@ =~= plain_rows(data, start, i as int),
        decreases count - i,
    {
        proof {
            assert(start + (i + 1) * R::width() <= start + count * R::width()) by (nonlinear_arith)
                requires
                    i + 1 <= count,
            ;
            assert((i + 1) * R::width() == i * R::width() + R::width()) by (nonlinear_arith);
        }
        match R::read(&mut work) {
            Ok(row) => {
                rows.push(row);
            },
            Err(e) => {
                proof {
                    assert((i + 1) * R::width() <= count * R::width()) by (nonlinear_arith)
                        requires
                            i + 1 <= count,
                    ;
                }
                return Err(e);
            },
        }
        i = i + 1;
    }
    *cursor = work;
    Ok(rows)
}

} // verus!
