//! What a type signature says: the encoding of types and of function
//! signatures, as functions of the bytes.

use vstd::prelude::*;
use crate::errors::Error;
use crate::file::TypeNames;
use crate::rtti::codes::{has_byte, lemma_varint_advances, varint32, CB};
use crate::rtti::tables::name_of;
use crate::text::{decimal, joined};

verus! {

/// One decoded type: its text, the position behind its bytes, and whether
/// a `const` marker was met that the text does not show yet.
pub struct Piece {
    pub text: Seq<char>,
    pub next: int,
    pub is_const: bool,
}

/// The name of the primitive type that a tag stands for, if it is one.
pub open spec fn primitive_name(tag: u8) -> Option<Seq<char>> {
    if tag == CB::BOOL {
        Some("bool"@)
    } else if tag == CB::INT32 {
        Some("int"@)
    } else if tag == CB::FLOAT32 {
        Some("float"@)
    } else if tag == CB::CHAR8 {
        Some("char"@)
    } else if tag == CB::ANY {
        Some("any"@)
    } else if tag == CB::TOPFUNCTION {
        Some("Function"@)
    } else {
        None
    }
}

/// The names of the table that a tag refers to, if it refers to one.
pub open spec fn named_table(tag: u8, names: TypeNames) -> Option<Seq<Seq<char>>> {
    if tag == CB::ENUM {
        Some(names.enums)
    } else if tag == CB::TYPEDEF {
        Some(names.typedefs)
    } else if tag == CB::TYPESET {
        Some(names.typesets)
    } else if tag == CB::STRUCT {
        Some(names.classdefs)
    } else if tag == CB::ENUMSTRUCT {
        Some(names.enum_structs)
    } else {
        None
    }
}

/// The text of a function signature.
pub open spec fn signature_text(ret: Seq<char>, args: Seq<Seq<char>>, variadic: bool) -> Seq<
    char,
> {
    "function "@ + ret + " ("@ + joined(args, ", "@) + (if variadic {
        "..."@
    } else {
        Seq::empty()
    }) + ")"@
}

/// The text of a type with the `const` that was met in it, if any, in front.
pub open spec fn with_const(piece: Piece) -> Seq<char> {
    if piece.is_const {
        "const "@ + piece.text
    } else {
        piece.text
    }
}

/// The type at `pos`, as part of the type around it: an optional `const`
/// marker, then the type itself. The marker is reported, not shown.
pub open spec fn decode_type(bytes: Seq<u8>, names: TypeNames, pos: int) -> Result<Piece, Error>
    decreases bytes.len() - pos, 1int,
{
    if !has_byte(bytes, pos) {
        Err(Error::InvalidOffset)
    } else if bytes[pos] == CB::CONST {
        match decode_tagged(bytes, names, pos + 1) {
            Ok(piece) => Ok(Piece { is_const: true, ..piece }),
            Err(e) => Err(e),
        }
    } else {
        decode_tagged(bytes, names, pos)
    }
}

/// The type whose tag stands at `pos`.
pub open spec fn decode_tagged(bytes: Seq<u8>, names: TypeNames, pos: int) -> Result<Piece, Error>
    decreases bytes.len() - pos, 0int,
{
    if !has_byte(bytes, pos) {
        Err(Error::InvalidOffset)
    } else {
        let tag = bytes[pos];
        if primitive_name(tag) is Some {
            Ok(Piece { text: primitive_name(tag)->0, next: pos + 1, is_const: false })
        } else if tag == CB::FIXEDARRAY {
            match varint32(bytes, pos + 1) {
                None => Err(Error::InvalidOffset),
                Some((size, at)) => {
                    proof {
                        lemma_varint_advances(bytes, pos + 1);
                    }
                    match decode_type(bytes, names, at) {
                        Ok(inner) => Ok(
                            Piece {
                                text: inner.text + "["@ + decimal(size) + "]"@,
                                next: inner.next,
                                is_const: inner.is_const,
                            },
                        ),
                        Err(e) => Err(e),
                    }
                },
            }
        } else if tag == CB::ARRAY {
            match decode_type(bytes, names, pos + 1) {
                Ok(inner) => Ok(
                    Piece { text: inner.text + "[]"@, next: inner.next, is_const: inner.is_const },
                ),
                Err(e) => Err(e),
            }
        } else if named_table(tag, names) is Some {
            match varint32(bytes, pos + 1) {
                None => Err(Error::InvalidOffset),
                Some((index, at)) => match name_of(named_table(tag, names)->0, index) {
                    Ok(name) => Ok(Piece { text: name, next: at, is_const: false }),
                    Err(e) => Err(e),
                },
            }
        } else if tag == CB::FUNCTION {
            decode_function(bytes, names, pos + 1)
        } else {
            Ok(
                Piece {
                    text: "unknown type code: "@ + decimal(tag as int),
                    next: pos + 1,
                    is_const: false,
                },
            )
        }
    }
}

/// The type at `pos` as a type of its own: a `const` marker met in it is
/// shown in front of its text and reported no further.
pub open spec fn decode_new(bytes: Seq<u8>, names: TypeNames, pos: int) -> Result<Piece, Error>
    decreases bytes.len() - pos, 2int,
{
    match decode_type(bytes, names, pos) {
        Ok(piece) => Ok(Piece { text: with_const(piece), next: piece.next, is_const: false }),
        Err(e) => Err(e),
    }
}

/// The function signature at `pos`: the number of arguments, an optional
/// variadic marker, the return type, then each argument.
///
/// A type ends behind where it begins (`lemma_decode_advances`), so the test
/// on the end of the return type never fails; it is there for the
/// definition to be well-founded.
pub open spec fn decode_function(bytes: Seq<u8>, names: TypeNames, pos: int) -> Result<
    Piece,
    Error,
>
    decreases bytes.len() - pos, 0int,
{
    if !has_byte(bytes, pos) || !has_byte(bytes, pos + 1) {
        Err(Error::InvalidOffset)
    } else {
        let argc = bytes[pos];
        let variadic = bytes[pos + 1] == CB::VARIADIC;
        let at = if variadic {
            pos + 2
        } else {
            pos + 1
        };
        if !has_byte(bytes, at) {
            Err(Error::InvalidOffset)
        } else {
            let ret = if bytes[at] == CB::VOID {
                Ok(Piece { text: "void"@, next: at + 1, is_const: false })
            } else {
                decode_new(bytes, names, at)
            };
            match ret {
                Err(e) => Err(e),
                Ok(ret) => if !(pos < ret.next <= bytes.len()) {
                    Err(Error::InvalidOffset)
                } else {
                    match decode_args(bytes, names, ret.next, argc as nat) {
                        Err(e) => Err(e),
                        Ok((args, end)) => Ok(
                            Piece {
                                text: signature_text(ret.text, args, variadic),
                                next: end,
                                is_const: false,
                            },
                        ),
                    }
                },
            }
        }
    }
}

/// The texts of `count` arguments in a row from `pos` on, and the position
/// behind the last: each is a type of its own, with `&` behind its text
/// where a by-reference marker stands before it.
///
/// As in `decode_function`, the test on the end of an argument never fails.
pub open spec fn decode_args(bytes: Seq<u8>, names: TypeNames, pos: int, count: nat) -> Result<
    (Seq<Seq<char>>, int),
    Error,
>
    decreases bytes.len() - pos, 3int,
{
    if count == 0 {
        Ok((Seq::empty(), pos))
    } else if !has_byte(bytes, pos) {
        Err(Error::InvalidOffset)
    } else {
        let by_ref = bytes[pos] == CB::BYREF;
        let at = if by_ref {
            pos + 1
        } else {
            pos
        };
        match decode_new(bytes, names, at) {
            Err(e) => Err(e),
            Ok(arg) => if !(pos < arg.next <= bytes.len()) {
                Err(Error::InvalidOffset)
            } else {
                match decode_args(bytes, names, arg.next, (count - 1) as nat) {
                    Err(e) => Err(e),
                    Ok((rest, end)) => Ok(
                        (
                            seq![
                                if by_ref {
                                    arg.text + "&"@
                                } else {
                                    arg.text
                                },
                            ] + rest,
                            end,
                        ),
                    ),
                }
            },
        }
    }
}

/// The texts of `count` types in a row from `pos` on, each a type of its
/// own, and the position behind the last.
pub open spec fn decode_list(bytes: Seq<u8>, names: TypeNames, pos: int, count: nat) -> Result<
    (Seq<Seq<char>>, int),
    Error,
>
    decreases count,
{
    if count == 0 {
        Ok((Seq::empty(), pos))
    } else {
        match decode_new(bytes, names, pos) {
            Err(e) => Err(e),
            Ok(first) => match decode_list(bytes, names, first.next, (count - 1) as nat) {
                Err(e) => Err(e),
                Ok((rest, end)) => Ok((seq![first.text] + rest, end)),
            },
        }
    }
}

/// The 32-bit pattern of a signed number, as an unsigned one.
pub open spec fn unsigned32(v: int) -> int {
    if v < 0 {
        v + 0x1_0000_0000
    } else {
        v
    }
}

/// The kind of a type id: its low four bits.
pub open spec fn type_kind(type_id: int) -> int {
    unsigned32(type_id) % 16
}

/// The payload of a type id: its upper 28 bits.
pub open spec fn type_payload(type_id: int) -> int {
    unsigned32(type_id) / 16
}

/// The four bytes of a payload, least significant first.
pub open spec fn inline_bytes(payload: int) -> Seq<u8> {
    seq![
        (payload % 0x100) as u8,
        (payload / 0x100 % 0x100) as u8,
        (payload / 0x1_0000 % 0x100) as u8,
        (payload / 0x100_0000 % 0x100) as u8,
    ]
}

/// The text of the type that a type id stands for. An inline id holds the
/// bytes of its type in its payload; a complex id holds the offset of its
/// type in `blob`; any other kind is named in the text.
pub open spec fn type_text(blob: Seq<u8>, names: TypeNames, type_id: int) -> Result<
    Seq<char>,
    Error,
> {
    let kind = type_kind(type_id);
    let payload = type_payload(type_id);
    if kind == CB::TYPEID_INLINE {
        match decode_new(inline_bytes(payload), names, 0) {
            Ok(piece) => Ok(piece.text),
            Err(e) => Err(e),
        }
    } else if kind == CB::TYPEID_COMPLEX {
        match decode_new(blob, names, payload) {
            Ok(piece) => Ok(piece.text),
            Err(e) => Err(e),
        }
    } else {
        Ok("Unknown type_id kind: "@ + decimal(kind))
    }
}

/// The text of the function signature at `offset`.
pub open spec fn function_text(blob: Seq<u8>, names: TypeNames, offset: int) -> Result<
    Seq<char>,
    Error,
> {
    match decode_function(blob, names, offset) {
        Ok(piece) => Ok(piece.text),
        Err(e) => Err(e),
    }
}

/// The texts of the types of the type set at `offset`: a variable-length
/// count, then as many types, one behind the other. A count below one
/// stands for no type.
pub open spec fn typeset_texts(blob: Seq<u8>, names: TypeNames, offset: int) -> Result<
    Seq<Seq<char>>,
    Error,
> {
    match varint32(blob, offset) {
        None => Err(Error::InvalidOffset),
        Some((count, at)) => if count <= 0 {
            Ok(Seq::empty())
        } else {
            match decode_list(blob, names, at, count as nat) {
                Ok((list, _)) => Ok(list),
                Err(e) => Err(e),
            }
        },
    }
}

/// Arguments end at or behind where they begin, inside the bytes.
pub proof fn lemma_args_end(bytes: Seq<u8>, names: TypeNames, pos: int, count: nat)
    requires
        pos <= bytes.len(),
    ensures
        decode_args(bytes, names, pos, count) matches Ok((args, end)) ==> pos <= end <= bytes.len()
            && args.len() == count,
    decreases count,
{
    if count > 0 && has_byte(bytes, pos) {
        let at = if bytes[pos] == CB::BYREF {
            pos + 1
        } else {
            pos
        };
        match decode_new(bytes, names, at) {
            Ok(arg) => {
                if pos < arg.next <= bytes.len() {
                    lemma_args_end(bytes, names, arg.next, (count - 1) as nat);
                }
            },
            Err(_) => {},
        }
    }
}

/// A type and a function signature end behind where they begin, inside the
/// bytes. So the tests that `decode_function` and `decode_args` make on the
/// end of a type never fail.
pub proof fn lemma_decode_advances(bytes: Seq<u8>, names: TypeNames, pos: int)
    ensures
        decode_tagged(bytes, names, pos) matches Ok(piece) ==> pos < piece.next <= bytes.len(),
        decode_type(bytes, names, pos) matches Ok(piece) ==> pos < piece.next <= bytes.len(),
        decode_new(bytes, names, pos) matches Ok(piece) ==> pos < piece.next <= bytes.len(),
        decode_function(bytes, names, pos) matches Ok(piece) ==> pos < piece.next <= bytes.len(),
    decreases bytes.len() - pos,
{
    if has_byte(bytes, pos) {
        lemma_decode_advances(bytes, names, pos + 1);
        lemma_varint_advances(bytes, pos + 1);
        match varint32(bytes, pos + 1) {
            Some((_, at)) => {
                lemma_decode_advances(bytes, names, at);
            },
            None => {},
        }
        if has_byte(bytes, pos + 1) {
            let at = if bytes[pos + 1] == CB::VARIADIC {
                pos + 2
            } else {
                pos + 1
            };
            if has_byte(bytes, at) {
                let ret = if bytes[at] == CB::VOID {
                    Ok::<Piece, Error>(Piece { text: "void"@, next: at + 1, is_const: false })
                } else {
                    decode_new(bytes, names, at)
                };
                match ret {
                    Ok(ret) => {
                        if pos < ret.next <= bytes.len() {
                            lemma_args_end(bytes, names, ret.next, bytes[pos] as nat);
                        }
                    },
                    Err(_) => {},
                }
            }
        }
    }
}

} // verus!
