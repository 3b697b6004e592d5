//! The decoder of type signatures.

use vstd::prelude::*;
use vstd::string::StringExecFns;
use crate::errors::Error;
use crate::file::{SMXFile, TypeNames};
use crate::headers::{section_bytes, section_fault, SMXHeader, SectionEntry};
use crate::rtti::codes::{has_byte, lemma_varint_advances, varint32, CB};
use crate::rtti::grammar::{
    decode_args, decode_function, decode_list, decode_new, decode_type, function_text,
    inline_bytes, named_table, primitive_name, signature_text, type_text, typeset_texts, Piece,
};
use crate::rtti::tables::name_of;
use crate::sections::base::BaseSection;
use crate::text::{decimal_string, join, texts};

verus! {

/// Whether decoding a type of its own with the decoder `before` may leave it
/// as `after` and give `r`: the text of the type at the read position, with
/// the decoder moved behind the type and its `const` state as it was; or the
/// error of the type.
pub open spec fn decoded_new(
    before: TypeBuilder,
    after: TypeBuilder,
    r: Result<String, Error>,
) -> bool {
    match decode_new(before.blob(), before.names(), before.position()) {
        Ok(piece) => r is Ok && r->Ok_0@ == piece.text && after.follows(
            &before,
            piece.next,
            before.const_seen(),
        ) && before.position() < piece.next <= before.blob().len(),
        Err(e) => r == Err::<String, Error>(e) && after == before,
    }
}

/// Decoding is repeatable: two decoders that read the same bytes with the
/// same names from the same position give the same text and move by the
/// same number of bytes, or fail with the same error.
pub proof fn lemma_decode_repeats(
    first: TypeBuilder,
    after_first: TypeBuilder,
    r1: Result<String, Error>,
    second: TypeBuilder,
    after_second: TypeBuilder,
    r2: Result<String, Error>,
)
    requires
        second.same_input(&first),
        second.position() == first.position(),
        decoded_new(first, after_first, r1),
        decoded_new(second, after_second, r2),
    ensures
        match (r1, r2) {
            (Ok(a), Ok(b)) => a@ == b@ && after_first.position() - first.position()
                == after_second.position() - second.position(),
            (Err(a), Err(b)) => a == b,
            _ => false,
        },
{
}

/// A decoder over the bytes of type signatures: a read position, and whether
/// a `const` marker was met in the type that is being decoded. A decoding
/// that fails leaves the decoder as it was.
#[derive(Clone, Copy)]
pub struct TypeBuilder<'a> {
    file: &'a SMXFile,
    bytes: &'a Vec<u8>,
    offset: i32,
    is_const: bool,
}

impl<'a> TypeBuilder<'a> {
    /// The names that the decoder resolves references with.
    pub closed spec fn names(&self) -> TypeNames {
        self.file.type_names()
    }

    /// The bytes that the decoder reads.
    pub closed spec fn blob(&self) -> Seq<u8> {
        self.bytes@
    }

    /// The read position.
    pub closed spec fn position(&self) -> int {
        self.offset as int
    }

    /// Whether a `const` marker was met in the type that is being decoded.
    pub closed spec fn const_seen(&self) -> bool {
        self.is_const
    }

    /// Whether the decoder reads the same bytes with the same names as `before`.
    pub open spec fn same_input(&self, before: &Self) -> bool {
        self.names() == before.names() && self.blob() == before.blob()
    }

    /// Whether the decoder is `before`, moved to `next` and with the given
    /// `const` state.
    pub open spec fn follows(&self, before: &Self, next: int, is_const: bool) -> bool {
        self.same_input(before) && self.position() == next && self.const_seen() == is_const
    }

    /// A decoder over `bytes` that stands at `offset`.
    pub fn new(file: &'a SMXFile, bytes: &'a Vec<u8>, offset: i32) -> (b: Self)
        ensures
            b.names() == file.type_names(),
            b.blob() == bytes@,
            b.position() == offset,
            !b.const_seen(),
    {
        Self { file, bytes, offset, is_const: false }
    }

    /// The read position.
    pub fn offset(&self) -> (p: i32)
        ensures
            p == self.position(),
    {
        self.offset
    }

    fn peek(&self) -> (r: Result<u8, Error>)
        ensures
            has_byte(self.blob(), self.position()) ==> r == Ok::<u8, Error>(
                self.blob()[self.position()],
            ),
            !has_byte(self.blob(), self.position()) ==> r == Err::<u8, Error>(
                Error::InvalidOffset,
            ),
    {
        if self.offset < 0 || self.offset as usize >= self.bytes.len() || self.offset == i32::MAX {
            Err(Error::InvalidOffset)
        } else {
            Ok(self.bytes[self.offset as usize])
        }
    }

    /// Consumes the byte at the read position if it is `b`, and says whether
    /// it was. Fails with `InvalidOffset` where no byte stands there.
    pub fn match_byte(&mut self, b: u8) -> (r: Result<bool, Error>)
        ensures
            final(self).same_input(old(self)),
            final(self).const_seen() == old(self).const_seen(),
            has_byte(old(self).blob(), old(self).position()) ==> r == Ok::<bool, Error>(
                old(self).blob()[old(self).position()] == b,
            ) && final(self).position() == old(self).position() + (if r->Ok_0 {
                1int
            } else {
                0int
            }),
            !has_byte(old(self).blob(), old(self).position()) ==> r == Err::<bool, Error>(
                Error::InvalidOffset,
            ) && final(self).position() == old(self).position(),
    {
        if self.peek()? != b {
            return Ok(false);
        }
        self.offset = self.offset + 1;
        Ok(true)
    }

    /// Decodes the type at the read position as a type of its own: a `const`
    /// marker met in it is shown in front of its text, and the decoder's own
    /// `const` state is what it was before.
    pub fn decode_new(&mut self) -> (r: Result<String, Error>)
        ensures
            decoded_new(*old(self), *final(self), r),
        decreases old(self).blob().len() - old(self).position(), 2int,
    {
        let mut work = *self;
        work.is_const = false;
        let text = work.decode()?;
        let marked = work.is_const;
        work.is_const = self.is_const;
        *self = work;
        if marked {
            let mut result = String::from_str("const ");
            result.append(text.as_str());
            Ok(result)
        } else {
            Ok(text)
        }
    }

    /// The name of a primitive type, by its tag.
    fn primitive(tag: u8) -> (r: Option<&'static str>)
        ensures
            match primitive_name(tag) {
                Some(name) => r is Some && r->0@ == name,
                None => r is None,
            },
    {
        if tag == CB::BOOL {
            Some("bool")
        } else if tag == CB::INT32 {
            Some("int")
        } else if tag == CB::FLOAT32 {
            Some("float")
        } else if tag == CB::CHAR8 {
            Some("char")
        } else if tag == CB::ANY {
            Some("any")
        } else if tag == CB::TOPFUNCTION {
            Some("Function")
        } else {
            None
        }
    }

    /// Whether a tag refers to a row of a table.
    fn is_reference(tag: u8) -> (r: bool)
        ensures
            r == (tag == CB::ENUM || tag == CB::TYPEDEF || tag == CB::TYPESET || tag == CB::STRUCT
                || tag == CB::ENUMSTRUCT),
    {
        tag == CB::ENUM || tag == CB::TYPEDEF || tag == CB::TYPESET || tag == CB::STRUCT || tag
            == CB::ENUMSTRUCT
    }

    /// The name of the row at `index` of the table that `tag` refers to.
    fn resolve(&self, tag: u8, index: i32) -> (r: Result<String, Error>)
        requires
            named_table(tag, self.names()) is Some,
        ensures
            match name_of(named_table(tag, self.names())->0, index as int) {
                Ok(name) => r is Ok && r->Ok_0@ == name,
                Err(e) => r == Err::<String, Error>(e),
            },
    {
        if tag == CB::ENUM {
            match &self.file.rtti_enums {
                Some(table) => table.lookup(index),
                None => Err(Error::InvalidIndex),
            }
        } else if tag == CB::TYPEDEF {
            match &self.file.rtti_typedefs {
                Some(table) => table.lookup(index),
                None => Err(Error::InvalidIndex),
            }
        } else if tag == CB::TYPESET {
            match &self.file.rtti_typesets {
                Some(table) => table.lookup(index),
                None => Err(Error::InvalidIndex),
            }
        } else if tag == CB::STRUCT {
            match &self.file.rtti_classdefs {
                Some(table) => table.lookup(index),
                None => Err(Error::InvalidIndex),
            }
        } else {
            match &self.file.rtti_enum_structs {
                Some(table) => table.lookup(index),
                None => Err(Error::InvalidIndex),
            }
        }
    }

    /// Decodes the type at the read position as part of the type around it:
    /// a `const` marker met in it is remembered in the decoder, not shown.
    pub fn decode(&mut self) -> (r: Result<String, Error>)
        ensures
            match decode_type(old(self).blob(), old(self).names(), old(self).position()) {
                Ok(piece) => r is Ok && r->Ok_0@ == piece.text && final(self).follows(
                    old(self),
                    piece.next,
                    old(self).const_seen() || piece.is_const,
                ) && old(self).position() < piece.next <= old(self).blob().len(),
                Err(e) => r == Err::<String, Error>(e) && *final(self) == *old(self),
            },
        decreases old(self).blob().len() - old(self).position(), 1int,
    {
        let mut work = *self;
        if work.match_byte(CB::CONST)? {
            work.is_const = true;
        }
        let ghost at = work.position();
        let b: u8 = work.peek()?;
        work.offset = work.offset + 1;
        let text = if let Some(name) = Self::primitive(b) {
            String::from_str(name)
        } else if b == CB::FIXEDARRAY {
            proof {
                lemma_varint_advances(work.blob(), at + 1);
            }
            let size = CB::decode_u32(work.bytes.as_slice(), &mut work.offset)?;
            let mut text = work.decode()?;
            text.append("[");
            text.append(decimal_string(size as i64).as_str());
            text.append("]");
            text
        } else if b == CB::ARRAY {
            let mut text = work.decode()?;
            text.append("[]");
            text
        } else if Self::is_reference(b) {
            proof {
                lemma_varint_advances(work.blob(), at + 1);
            }
            let index = CB::decode_u32(work.bytes.as_slice(), &mut work.offset)?;
            work.resolve(b, index)?
        } else if b == CB::FUNCTION {
            work.decode_function()?
        } else {
            let mut text = String::from_str("unknown type code: ");
            text.append(decimal_string(b as i64).as_str());
            text
        };
        *self = work;
        Ok(text)
    }

    /// Decodes the function signature at the read position.
    pub fn decode_function(&mut self) -> (r: Result<String, Error>)
        ensures
            match decode_function(old(self).blob(), old(self).names(), old(self).position()) {
                Ok(piece) => r is Ok && r->Ok_0@ == piece.text && final(self).follows(
                    old(self),
                    piece.next,
                    old(self).const_seen(),
                ) && old(self).position() < piece.next <= old(self).blob().len(),
                Err(e) => r == Err::<String, Error>(e) && *final(self) == *old(self),
            },
        decreases old(self).blob().len() - old(self).position(), 0int,
    {
        let mut work = *self;
        let argc: u8 = work.peek()?;
        work.offset = work.offset + 1;
        let variadic = work.match_byte(CB::VARIADIC)?;
        let return_type = if work.match_byte(CB::VOID)? {
            String::from_str("void")
        } else {
            work.decode_new()?
        };
        let ghost start = work.position();
        let ghost whole = decode_function(old(self).blob(), old(self).names(), old(self).position());
        let mut argv: Vec<String> = Vec::new();
        let mut i: u8 = 0;
        while i < argc
            invariant
                i <= argc,
                work.follows(old(self), work.position(), old(self).const_seen()),
                whole == decode_function(old(self).blob(), old(self).names(), old(self).position()),
                whole == match decode_args(work.blob(), work.names(), start, argc as nat) {
                    Err(e) => Err::<Piece, Error>(e),
                    Ok((args, end)) => Ok::<Piece, Error>(
                        Piece {
                            text: signature_text(return_type@, args, variadic),
                            next: end,
                            is_const: false,
                        },
                    ),
                },
                *self == *old(self),
                old(self).position() < start <= work.position() <= work.blob().len(),
                argv@.len() == i,
                match decode_args(work.blob(), work.names(), work.position(), (argc - i) as nat) {
                    Ok((rest, end)) => decode_args(
                        work.blob(),
                        work.names(),
                        start,
                        argc as nat,
                    ) == Ok::<(Seq<Seq<char>>, int), Error>((texts(argv@) + rest, end)),
                    Err(e) => decode_args(work.blob(), work.names(), start, argc as nat) == Err::<
                        (Seq<Seq<char>>, int),
                        Error,
                    >(e),
                },
            decreases argc - i,
        {
            let ghost before = texts(argv@);
            let by_ref = work.match_byte(CB::BYREF)?;
            let mut text = work.decode_new()?;
            if by_ref {
                text.append("&");
            }
            argv.push(text);
            i = i + 1;
            proof {
                assert(texts(argv@) =~= before + seq![text@]);
                match decode_args(work.blob(), work.names(), work.position(), (argc - i) as nat) {
                    Ok((rest, end)) => {
                        assert(before + (seq![text@] + rest) =~= texts(argv@) + rest);
                    },
                    Err(e) => {},
                }
            }
        }
        proof {
            assert(texts(argv@) + Seq::<Seq<char>>::empty() =~= texts(argv@));
        }
        let mut signature = String::from_str("function ");
        signature.append(return_type.as_str());
        signature.append(" (");
        signature.append(join(&argv, ", ").as_str());
        if variadic {
            signature.append("...");
        }
        signature.append(")");
        proof {
            assert(signature@ =~= signature_text(return_type@, texts(argv@), variadic));
        }
        *self = work;
        Ok(signature)
    }
}

/// The type signatures of an image, with the tables that they refer to.
#[derive(Debug)]
pub struct SMXRTTIData {
    smx_file: SMXFile,
    bytes: Vec<u8>,
}

impl SMXRTTIData {
    /// The names that the types refer to.
    pub closed spec fn names(&self) -> TypeNames {
        self.smx_file.type_names()
    }

    /// The bytes of the type signatures.
    pub closed spec fn blob(&self) -> Seq<u8> {
        self.bytes@
    }

    /// The type signatures in the given section; the fault of the section's
    /// place where it does not lie inside the image.
    pub fn new(file: SMXFile, header: &SMXHeader, section: &SectionEntry) -> (r: Result<
        Self,
        Error,
    >)
        ensures
            match section_fault(header, section) {
                None => r is Ok && r->Ok_0.blob() == section_bytes(header, section)
                    && r->Ok_0.names() == file.type_names(),
                Some(e) => r == Err::<Self, Error>(e),
            },
    {
        let base = BaseSection::new(header, section);
        let bytes = base.get_data()?;
        Ok(Self { smx_file: file, bytes })
    }

    /// The text of the type that `type_id` stands for.
    pub fn type_from_id(&self, type_id: i32) -> (r: Result<String, Error>)
        ensures
            match type_text(self.blob(), self.names(), type_id as int) {
                Ok(text) => r is Ok && r->Ok_0@ == text,
                Err(e) => r == Err::<String, Error>(e),
            },
    {
        let pattern: i64 = if type_id < 0 {
            type_id as i64 + 0x1_0000_0000
        } else {
            type_id as i64
        };
        let kind: i64 = pattern % 16;
        let payload: i64 = pattern / 16;
        if kind == CB::TYPEID_INLINE as i64 {
            let mut temp: Vec<u8> = Vec::new();
            temp.push((payload % 0x100) as u8);
            temp.push((payload / 0x100 % 0x100) as u8);
            temp.push((payload / 0x1_0000 % 0x100) as u8);
            temp.push((payload / 0x100_0000 % 0x100) as u8);
            assert(temp@ =~= inline_bytes(payload as int));
            let mut builder = TypeBuilder::new(&self.smx_file, &temp, 0);
            return builder.decode_new();
        }
        if kind != CB::TYPEID_COMPLEX as i64 {
            let mut text = String::from_str("Unknown type_id kind: ");
            text.append(decimal_string(kind).as_str());
            return Ok(text);
        }
        let mut offset: i32 = payload as i32;
        self.build_type_name(&mut offset)
    }

    /// The text of the function signature at `offset`.
    pub fn function_type_from_offset(&self, offset: i32) -> (r: Result<String, Error>)
        ensures
            match function_text(self.blob(), self.names(), offset as int) {
                Ok(text) => r is Ok && r->Ok_0@ == text,
                Err(e) => r == Err::<String, Error>(e),
            },
    {
        let mut builder = TypeBuilder::new(&self.smx_file, &self.bytes, offset);
        builder.decode_function()
    }

    /// The texts of the types of the type set at `offset`.
    pub fn typeset_types_from_offset(&self, offset: i32) -> (r: Result<Vec<String>, Error>)
        ensures
            match typeset_texts(self.blob(), self.names(), offset as int) {
                Ok(list) => r is Ok && texts(r->Ok_0@) == list,
                Err(e) => r == Err::<Vec<String>, Error>(e),
            },
    {
        let mut start: i32 = offset;
        let count = CB::decode_u32(self.bytes.as_slice(), &mut start)?;
        let mut types: Vec<String> = Vec::new();
        if count <= 0 {
            assert(texts(types@) =~= Seq::<Seq<char>>::empty());
            return Ok(types);
        }
        let mut builder = TypeBuilder::new(&self.smx_file, &self.bytes, start);
        let mut i: i32 = 0;
        while i < count
            invariant
                0 <= i <= count,
                varint32(self.blob(), offset as int) == Some((count as int, start as int)),
                builder.blob() == self.blob(),
                builder.names() == self.names(),
                types@.len() == i,
                match decode_list(self.blob(), self.names(), builder.position(), (count - i) as nat) {
                    Ok((rest, end)) => decode_list(
                        self.blob(),
                        self.names(),
                        start as int,
                        count as nat,
                    ) == Ok::<(Seq<Seq<char>>, int), Error>((texts(types@) + rest, end)),
                    Err(e) => decode_list(self.blob(), self.names(), start as int, count as nat)
                        == Err::<(Seq<Seq<char>>, int), Error>(e),
                },
            decreases count - i,
        {
            let ghost before = texts(types@);
            let text = builder.decode_new()?;
            types.push(text);
            i = i + 1;
            proof {
                assert(texts(types@) =~= before + seq![text@]);
                match decode_list(self.blob(), self.names(), builder.position(), (count - i) as nat) {
                    Ok((rest, end)) => {
                        assert(before + (seq![text@] + rest) =~= texts(types@) + rest);
                    },
                    Err(e) => {},
                }
            }
        }
        proof {
            assert(texts(types@) + Seq::<Seq<char>>::empty() =~= texts(types@));
        }
        Ok(types)
    }

    /// Decodes the type at `*offset` as a type of its own and moves the
    /// offset behind it.
    pub fn build_type_name(&self, offset: &mut i32) -> (r: Result<String, Error>)
        ensures
            match decode_new(self.blob(), self.names(), *old(offset) as int) {
                Ok(piece) => r is Ok && r->Ok_0@ == piece.text && *final(offset) == piece.next,
                Err(e) => r == Err::<String, Error>(e),
            },
    {
        let mut builder = TypeBuilder::new(&self.smx_file, &self.bytes, *offset);
        let text = builder.decode_new()?;
        *offset = builder.offset();
        Ok(text)
    }
}

} // verus!
