//! The byte codes of the type encoding and its variable-length numbers.

use vstd::prelude::*;
use vstd::arithmetic::div_mod::{lemma_add_mod_noop, lemma_mul_mod_noop_general};
use crate::errors::Error;
use crate::reader::signed32;

verus! {

/// The byte codes of the type encoding.
pub struct CB;

impl CB {
    pub const BOOL: u8 = 0x01;

    pub const INT32: u8 = 0x06;

    pub const FLOAT32: u8 = 0x0c;

    pub const CHAR8: u8 = 0x0e;

    pub const ANY: u8 = 0x10;

    pub const TOPFUNCTION: u8 = 0x11;

    pub const FIXEDARRAY: u8 = 0x30;

    pub const ARRAY: u8 = 0x31;

    pub const FUNCTION: u8 = 0x32;

    pub const ENUM: u8 = 0x42;

    pub const TYPEDEF: u8 = 0x43;

    pub const TYPESET: u8 = 0x44;

    pub const STRUCT: u8 = 0x45;

    pub const ENUMSTRUCT: u8 = 0x46;

    pub const VOID: u8 = 0x70;

    pub const VARIADIC: u8 = 0x71;

    pub const BYREF: u8 = 0x72;

    pub const CONST: u8 = 0x73;

    pub const TYPEID_INLINE: u8 = 0x0;

    pub const TYPEID_COMPLEX: u8 = 0x1;
}

/// Whether the type bytes hold a byte at `pos`. Positions are 32-bit: nothing
/// is read at or past `i32::MAX`.
pub open spec fn has_byte(bytes: Seq<u8>, pos: int) -> bool {
    0 <= pos < bytes.len() && pos < i32::MAX
}

/// The variable-length number at `pos` and the position after it: each byte
/// gives seven bits, least significant group first, and a set high bit says
/// that another byte follows. `None` when the bytes end inside the number.
pub open spec fn varint(bytes: Seq<u8>, pos: int) -> Option<(nat, int)>
    decreases bytes.len() - pos,
{
    if !has_byte(bytes, pos) {
        None
    } else if bytes[pos] < 0x80 {
        Some((bytes[pos] as nat, pos + 1))
    } else {
        match varint(bytes, pos + 1) {
            None => None,
            Some((rest, next)) => Some(((bytes[pos] - 0x80 + 0x80 * rest) as nat, next)),
        }
    }
}

/// The variable-length number at `pos` as the decoder uses it: its low 32
/// bits, read as two's complement.
pub open spec fn varint32(bytes: Seq<u8>, pos: int) -> Option<(int, int)> {
    match varint(bytes, pos) {
        None => None,
        Some((value, next)) => Some((signed32((value % 0x1_0000_0000) as int), next)),
    }
}

/// A variable-length number ends after where it begins, inside the bytes.
pub proof fn lemma_varint_advances(bytes: Seq<u8>, pos: int)
    ensures
        varint(bytes, pos) matches Some((_, next)) ==> pos < next <= bytes.len() && next
            <= i32::MAX,
    decreases bytes.len() - pos,
{
    if has_byte(bytes, pos) && bytes[pos] >= 0x80 {
        lemma_varint_advances(bytes, pos + 1);
    }
}

/// The number that begins at `pos`, given that its first groups, up to
/// `cur`, sum to `acc` and the next group weighs `scale`.
spec fn varint_rest(bytes: Seq<u8>, cur: int, acc: nat, scale: nat) -> Option<(nat, int)> {
    match varint(bytes, cur) {
        None => None,
        Some((rest, next)) => Some((acc + scale * rest, next)),
    }
}

proof fn lemma_varint_step(bytes: Seq<u8>, cur: int, acc: nat, scale: nat)
    requires
        has_byte(bytes, cur),
        bytes[cur] >= 0x80,
    ensures
        varint_rest(bytes, cur, acc, scale) == varint_rest(
            bytes,
            cur + 1,
            (acc + scale * (bytes[cur] - 0x80)) as nat,
            scale * 0x80,
        ),
{
    match varint(bytes, cur + 1) {
        None => {},
        Some((rest, next)) => {
            let low = bytes[cur] - 0x80;
            assert(acc + scale * (low + 0x80 * rest) == (acc + scale * low) + (scale * 0x80)
                * rest) by (nonlinear_arith);
        },
    }
}

proof fn lemma_mod_step(acc: nat, scale: nat, low: nat, a: nat, s: nat)
    requires
        a == acc % 0x1_0000_0000,
        s == scale % 0x1_0000_0000,
    ensures
        (a + s * low) % 0x1_0000_0000 == (acc + scale * low) % 0x1_0000_0000,
        (s * 0x80) % 0x1_0000_0000 == (scale * 0x80) % 0x1_0000_0000,
{
    let m = 0x1_0000_0000int;
    lemma_mul_mod_noop_general(scale as int, low as int, m);
    lemma_mul_mod_noop_general(s as int, low as int, m);
    lemma_add_mod_noop(acc as int, (scale * low) as int, m);
    lemma_add_mod_noop(a as int, (s * low) as int, m);
    lemma_mul_mod_noop_general(scale as int, 0x80, m);
    lemma_mul_mod_noop_general(s as int, 0x80, m);
}

impl CB {
    /// Decodes the variable-length number at `*offset` and moves the offset
    /// past it. Fails with `InvalidOffset`, the offset unchanged, when the
    /// bytes end inside the number.
    pub fn decode_u32(bytes: &[u8], offset: &mut i32) -> (r: Result<i32, Error>)
        ensures
            match varint32(bytes@, *old(offset) as int) {
                Some((value, next)) => r == Ok::<i32, Error>(value as i32) && *final(offset)
                    == next,
                None => r == Err::<i32, Error>(Error::InvalidOffset) && *final(offset) == *old(
                    offset,
                ),
            },
    {
        let start: i32 = *offset;
        let mut cur: i32 = start;
        let mut value: u64 = 0;
        let mut weight: u64 = 1;
        let ghost mut acc: nat = 0;
        let ghost mut scale: nat = 1;
        loop
            invariant
                *offset == start,
                start == *old(offset),
                start <= cur,
                value == acc % 0x1_0000_0000,
                weight == scale % 0x1_0000_0000,
                varint_rest(bytes@, cur as int, acc, scale) == varint(bytes@, start as int),
            decreases bytes@.len() - cur,
        {
            if cur < 0 || cur as usize >= bytes.len() || cur == i32::MAX {
                return Err(Error::InvalidOffset);
            }
            let b: u8 = bytes[cur as usize];
            if b < 0x80 {
                proof {
                    lemma_mod_step(acc, scale, b as nat, value as nat, weight as nat);
                }
                assert(weight * (b as u64) <= 0xffff_ffff * 0x7f) by (nonlinear_arith)
                    requires
                        weight <= 0xffff_ffff,
                        b <= 0x7f,
                ;
                let total: u64 = (value + weight * (b as u64)) % 0x1_0000_0000;
                *offset = cur + 1;
                if total < 0x8000_0000 {
                    return Ok(total as i32);
                } else {
                    return Ok((total as i64 - 0x1_0000_0000) as i32);
                }
            }
            let low: u64 = (b - 0x80) as u64;
            proof {
                lemma_varint_step(bytes@, cur as int, acc, scale);
                lemma_mod_step(acc, scale, low as nat, value as nat, weight as nat);
                acc = (acc + scale * low) as nat;
                scale = scale * 0x80;
            }
            assert(weight * low <= 0xffff_ffff * 0x7f) by (nonlinear_arith)
                requires
                    weight <= 0xffff_ffff,
                    low <= 0x7f,
            ;
            value = (value + weight * low) % 0x1_0000_0000;
            weight = (weight * 0x80) % 0x1_0000_0000;
            cur = cur + 1;
        }
    }
}

} // verus!
