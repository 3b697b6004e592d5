//! Text building: numbers in decimal and hexadecimal, joined lists, and the
//! decoding of name bytes.

use vstd::prelude::*;
use vstd::utf8::{decode_utf8, valid_utf8};

verus! {

/// The character of one digit, `0` to `9` and then `a` to `f`.
pub open spec fn digit_char(d: int) -> char {
    if d == 0 {
        '0'
    } else if d == 1 {
        '1'
    } else if d == 2 {
        '2'
    } else if d == 3 {
        '3'
    } else if d == 4 {
        '4'
    } else if d == 5 {
        '5'
    } else if d == 6 {
        '6'
    } else if d == 7 {
        '7'
    } else if d == 8 {
        '8'
    } else if d == 9 {
        '9'
    } else if d == 10 {
        'a'
    } else if d == 11 {
        'b'
    } else if d == 12 {
        'c'
    } else if d == 13 {
        'd'
    } else if d == 14 {
        'e'
    } else {
        'f'
    }
}

/// The digits of `n` in the given base, most significant first, without
/// leading zeros; zero is the single digit `0`.
pub open spec fn digits(n: nat, base: nat) -> Seq<char>
    decreases n,
{
    if base < 2 || n < base {
        seq![digit_char(n as int)]
    } else {
        proof {
            assert(n / base < n) by (nonlinear_arith)
                requires
                    n >= base,
                    base >= 2,
            ;
        }
        digits(n / base, base).push(digit_char((n % base) as int))
    }
}

/// A number in decimal, with a leading minus sign when it is negative.
pub open spec fn decimal(n: int) -> Seq<char> {
    if n < 0 {
        seq!['-'] + digits((-n) as nat, 10)
    } else {
        digits(n as nat, 10)
    }
}

/// A number in lower-case hexadecimal.
pub open spec fn hexadecimal(n: nat) -> Seq<char> {
    digits(n, 16)
}

/// The texts of a list of strings.
pub open spec fn texts(v: Seq<String>) -> Seq<Seq<char>> {
    Seq::new(v.len(), |i: int| v[i]@)
}

/// The parts in order, with `sep` between each two neighbours.
pub open spec fn joined(parts: Seq<Seq<char>>, sep: Seq<char>) -> Seq<char>
    decreases parts.len(),
{
    if parts.len() == 0 {
        Seq::empty()
    } else if parts.len() == 1 {
        parts[0]
    } else {
        joined(parts.drop_last(), sep) + sep + parts.last()
    }
}

/// What `String::from_utf8_lossy` makes of a byte string.
pub uninterp spec fn utf8_lossy(bytes: Seq<u8>) -> Seq<char>;

/// `String::from_utf8_lossy`, as an owned string: the text of the bytes, with
/// the replacement character in place of each invalid sequence. Bytes that
/// are valid UTF-8 decode to their own text.
#[verifier::external_body]
pub(crate) fn lossy_string(bytes: &[u8]) -> (s: String)
    ensures
        s@ == utf8_lossy(bytes@),
        valid_utf8(bytes@) ==> s@ == decode_utf8(bytes@),
{
    String::from_utf8_lossy(bytes).into_owned()
}

fn digit_str(d: u64) -> (s: &'static str)
    requires
        d < 16,
    ensures
        s@ == seq![digit_char(d as int)],
{
    proof {
        reveal_strlit("0");
        reveal_strlit("1");
        reveal_strlit("2");
        reveal_strlit("3");
        reveal_strlit("4");
        reveal_strlit("5");
        reveal_strlit("6");
        reveal_strlit("7");
        reveal_strlit("8");
        reveal_strlit("9");
        reveal_strlit("a");
        reveal_strlit("b");
        reveal_strlit("c");
        reveal_strlit("d");
        reveal_strlit("e");
        reveal_strlit("f");
    }
    let s = if d == 0 {
        "0"
    } else if d == 1 {
        "1"
    } else if d == 2 {
        "2"
    } else if d == 3 {
        "3"
    } else if d == 4 {
        "4"
    } else if d == 5 {
        "5"
    } else if d == 6 {
        "6"
    } else if d == 7 {
        "7"
    } else if d == 8 {
        "8"
    } else if d == 9 {
        "9"
    } else if d == 10 {
        "a"
    } else if d == 11 {
        "b"
    } else if d == 12 {
        "c"
    } else if d == 13 {
        "d"
    } else if d == 14 {
        "e"
    } else {
        "f"
    };
    assert(s@ =~= seq![digit_char(d as int)]);
    s
}

/// Appends the digits of `n` in the given base to `out`.
pub fn push_digits(out: &mut String, n: u64, base: u64)
    requires
        2 <= base <= 16,
    ensures
        final(out)@ == old(out)@ + digits(n as nat, base as nat),
    decreases n,
{
    if n < base {
        out.append(digit_str(n));
    } else {
        assert(n / base < n) by (nonlinear_arith)
            requires
                n >= base,
                base >= 2,
        ;
        push_digits(out, n / base, base);
        out.append(digit_str(n % base));
        assert(final(out)@ =~= old(out)@ + digits(n as nat, base as nat));
    }
}

/// The decimal text of a signed number.
pub fn decimal_string(n: i64) -> (s: String)
    ensures
        s@ == decimal(n as int),
{
    let mut out = String::new();
    if n < 0 {
        proof {
            reveal_strlit("-");
        }
        out.append("-");
        let magnitude: u64 = if n == i64::MIN {
            0x8000_0000_0000_0000u64
        } else {
            (-n) as u64
        };
        push_digits(&mut out, magnitude, 10);
        assert(out@ =~= decimal(n as int));
    } else {
        push_digits(&mut out, n as u64, 10);
        assert(out@ =~= decimal(n as int));
    }
    out
}

/// The lower-case hexadecimal text of an unsigned number.
pub fn hex_string(n: u32) -> (s: String)
    ensures
        s@ == hexadecimal(n as nat),
{
    let mut out = String::new();
    push_digits(&mut out, n as u64, 16);
    assert(out@ =~= hexadecimal(n as nat));
    out
}

/// The strings in order, with `sep` between each two neighbours.
pub fn join(parts: &Vec<String>, sep: &str) -> (s: String)
    ensures
        s@ == joined(texts(parts@), sep@),
{
    let mut out = String::new();
    let mut i: usize = 0;
    while i < parts.len()
        invariant
            i <= parts.len(),
            out@ == joined(texts(parts@).take(i as int), sep@),
        decreases parts.len() - i,
    {
        let ghost before = texts(parts@).take(i as int);
        let ghost after = texts(parts@).take(i + 1);
        proof {
            assert(after.drop_last() =~= before);
            assert(after.last() == parts@[i as int]@);
        }
        if i > 0 {
            out.append(sep);
        }
        out.append(parts[i].as_str());
        proof {
            if i == 0 {
                assert(out@ =~= after[0]);
            } else {
                assert(out@ =~= joined(before, sep@) + sep@ + after.last());
            }
        }
        i = i + 1;
    }
    assert(texts(parts@).take(parts@.len() as int) =~= texts(parts@));
    out
}

} // verus!
