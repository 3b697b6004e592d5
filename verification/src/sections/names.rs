//! The name table: a pool of NUL-terminated strings, looked up by offset.

use std::collections::HashMap;
use vstd::prelude::*;
use vstd::slice::slice_subrange;
use vstd::std_specs::hash::group_hash_axioms;
use crate::errors::Error;
use crate::headers::{section_bytes, section_fault, SMXHeader, SectionEntry};
use crate::sections::base::BaseSection;
use crate::text::{lossy_string, utf8_lossy};

verus! {

broadcast use group_hash_axioms;

/// Where the string that holds offset `from` ends: at the first NUL byte at
/// or after `from`, or at the end of the bytes where there is none.
pub open spec fn text_end(bytes: Seq<u8>, from: int) -> int
    decreases bytes.len() - from,
{
    if from < 0 || from >= bytes.len() {
        bytes.len() as int
    } else if bytes[from] == 0 {
        from
    } else {
        text_end(bytes, from + 1)
    }
}

/// The text found at `offset`: the bytes up to the next NUL or the end,
/// decoded as UTF-8 with replacement of invalid sequences.
pub open spec fn name_text(bytes: Seq<u8>, offset: int) -> Seq<char> {
    utf8_lossy(bytes.subrange(offset, text_end(bytes, offset)))
}

/// Whether a string starts at `offset`: the offset lies inside the bytes,
/// and it is their first or follows a NUL byte.
pub open spec fn is_extent(bytes: Seq<u8>, offset: int) -> bool {
    &&& 0 <= offset < bytes.len()
    &&& offset == 0 || bytes[offset - 1] == 0
}

/// Whether `list` holds, in ascending order and each once, the offsets at
/// which a string starts.
pub open spec fn lists_extents(bytes: Seq<u8>, list: Seq<i32>) -> bool {
    &&& forall|i: int, j: int| 0 <= i < j < list.len() ==> list[i] < list[j]
    &&& forall|i: int| 0 <= i < list.len() ==> is_extent(bytes, #[trigger] list[i] as int)
    &&& forall|o: int| is_extent(bytes, o) ==> exists|i: int|
        0 <= i < list.len() && #[trigger] list[i] == o
}

/// The end of a string lies between its offset and the end of the bytes, no
/// NUL byte lies before it, and one lies at it unless the bytes end there.
pub proof fn lemma_text_end(bytes: Seq<u8>, from: int)
    requires
        0 <= from <= bytes.len(),
    ensures
        from <= text_end(bytes, from) <= bytes.len(),
        forall|j: int| from <= j < text_end(bytes, from) ==> bytes[j] != 0,
        text_end(bytes, from) < bytes.len() ==> bytes[text_end(bytes, from)] == 0,
    decreases bytes.len() - from,
{
    if from < bytes.len() && bytes[from] != 0 {
        lemma_text_end(bytes, from + 1);
    }
}

/// Whether a lookup of `index` that found the table as `before` may leave it
/// as `after` and give `r`: the bytes stay; inside the table the text at
/// `index` is given and remembered, outside of it the lookup fails with
/// `InvalidIndex`; and nothing else is remembered or forgotten.
pub open spec fn lookup_outcome(
    before: SMXNameTable,
    index: i32,
    after: SMXNameTable,
    r: Result<String, Error>,
) -> bool {
    &&& after.wf()
    &&& after.bytes() == before.bytes()
    &&& forall|o: int| before.is_cached(o) ==> after.is_cached(o)
    &&& forall|o: int| after.is_cached(o) ==> before.is_cached(o) || o == index
    &&& before.holds(index as int) ==> r is Ok && r->Ok_0@ == before.text_at(index as int)
        && after.is_cached(index as int)
    &&& !before.holds(index as int) ==> r == Err::<String, Error>(Error::InvalidIndex)
        && !after.is_cached(index as int)
}

/// Looking the same offset up twice gives the same answer both times: the
/// same text, or the same error. After the first lookup that finds a text
/// the text is remembered, and the second lookup remembers nothing new.
pub proof fn lemma_lookup_repeats(
    first: SMXNameTable,
    second: SMXNameTable,
    third: SMXNameTable,
    index: i32,
    r1: Result<String, Error>,
    r2: Result<String, Error>,
)
    requires
        lookup_outcome(first, index, second, r1),
        lookup_outcome(second, index, third, r2),
    ensures
        match (r1, r2) {
            (Ok(a), Ok(b)) => a@ == b@ && second.is_cached(index as int),
            (Err(a), Err(b)) => a == b,
            _ => false,
        },
        forall|o: int| third.is_cached(o) == second.is_cached(o),
{
}

/// The name table of an image. Looking a name up remembers it, and the list
/// of string starts is computed once.
#[derive(Debug)]
pub struct SMXNameTable {
    data: Vec<u8>,
    names: HashMap<i32, String>,
    extends: Vec<i32>,
}

impl Clone for SMXNameTable {
    fn clone(&self) -> (r: Self)
        ensures
            self.wf() ==> r.wf(),
            r.bytes() == self.bytes(),
            forall|o: int| r.is_cached(o) == self.is_cached(o),
    {
        let data = self.data.clone();
        let extends = self.extends.clone();
        assert(data@ =~= self.data@);
        assert(extends@ =~= self.extends@);
        SMXNameTable { data, names: self.names.clone(), extends }
    }
}

impl SMXNameTable {
    /// The table's invariant: it is no longer than an offset can say, each
    /// remembered name is the text at its offset, and the list of string
    /// starts is either not yet computed or right.
    pub closed spec fn wf(&self) -> bool {
        &&& self.data@.len() <= i32::MAX
        &&& forall|k: i32| #[trigger]
            self.names@.contains_key(k) ==> 0 <= k < self.data@.len() && self.names@[k]@
                == name_text(self.data@, k as int)
        &&& self.extends@.len() == 0 || lists_extents(self.data@, self.extends@)
    }

    /// The bytes of the table.
    pub closed spec fn bytes(&self) -> Seq<u8> {
        self.data@
    }

    /// Whether the name at `offset` has been looked up before.
    pub closed spec fn is_cached(&self, offset: int) -> bool {
        i32::MIN <= offset <= i32::MAX && self.names@.contains_key(offset as i32)
    }

    /// The text that `string_at` gives for `offset`.
    pub open spec fn text_at(&self, offset: int) -> Seq<char> {
        name_text(self.bytes(), offset)
    }

    /// Whether `offset` lies inside the table.
    pub open spec fn holds(&self, offset: int) -> bool {
        0 <= offset < self.bytes().len()
    }

    /// The name table in the given section; the fault of the section's place
    /// where it does not lie inside the image.
    pub fn new(header: &SMXHeader, section: &SectionEntry) -> (r: Result<Self, Error>)
        ensures
            match section_fault(header, section) {
                None => r is Ok && r->Ok_0.wf() && r->Ok_0.bytes() == section_bytes(
                    header,
                    section,
                ) && forall|o: int| !r->Ok_0.is_cached(o),
                Some(e) => r == Err::<Self, Error>(e),
            },
    {
        let base = BaseSection::new(header, section);
        match base.get_data() {
            Ok(data) => Ok(SMXNameTable { data, names: HashMap::new(), extends: Vec::new() }),
            Err(e) => Err(e),
        }
    }

    /// The number of bytes in the table.
    pub fn size(&self) -> (n: i32)
        requires
            self.wf(),
        ensures
            n == self.bytes().len(),
    {
        self.data.len() as i32
    }

    fn compute_extends(&self) -> (list: Vec<i32>)
        requires
            self.wf(),
        ensures
            lists_extents(self.bytes(), list@),
    {
        let mut list: Vec<i32> = Vec::new();
        let mut last: usize = 0;
        let mut i: usize = 0;
        let ghost bytes = self.data@;
        while i < self.data.len()
            invariant
                bytes == self.data@,
                bytes.len() <= i32::MAX,
                last <= i <= bytes.len(),
                last == 0 || bytes[last - 1] == 0,
                forall|j: int| last <= j < i ==> bytes[j] != 0,
                forall|a: int, b: int| 0 <= a < b < list@.len() ==> list@[a] < list@[b],
                forall|a: int| 0 <= a < list@.len() ==> is_extent(bytes, #[trigger] list@[a] as int),
                forall|a: int| 0 <= a < list@.len() ==> #[trigger] list@[a] < last,
                forall|o: int|
                    is_extent(bytes, o) && o < last ==> exists|a: int|
                        0 <= a < list@.len() && #[trigger] list@[a] == o,
            decreases bytes.len() - i,
        {
            if self.data[i] == 0 {
                let ghost before = list@;
                list.push(last as i32);
                proof {
                    assert forall|o: int| is_extent(bytes, o) && o < i + 1 implies exists|a: int|
                        0 <= a < list@.len() && #[trigger] list@[a] == o by {
                        if o < last {
                            let a = choose|a: int| 0 <= a < before.len() && before[a] == o;
                            assert(list@[a] == o);
                        } else {
                            assert(o == last);
                            assert(list@[before.len() as int] == o);
                        }
                    }
                }
                last = i + 1;
            }
            i = i + 1;
        }
        if last < self.data.len() {
            let ghost before = list@;
            list.push(last as i32);
            proof {
                assert forall|o: int| is_extent(bytes, o) implies exists|a: int|
                    0 <= a < list@.len() && #[trigger] list@[a] == o by {
                    if o < last {
                        let a = choose|a: int| 0 <= a < before.len() && before[a] == o;
                        assert(list@[a] == o);
                    } else {
                        assert(o == last);
                        assert(list@[before.len() as int] == o);
                    }
                }
            }
        }
        list
    }

    /// The offsets at which a string starts, in ascending order: the first
    /// offset of the table and each that follows a NUL byte. The list is
    /// computed on the first call and kept.
    pub fn get_extends(&mut self) -> (r: Vec<i32>)
        requires
            old(self).wf(),
        ensures
            final(self).wf(),
            final(self).bytes() == old(self).bytes(),
            forall|o: int| final(self).is_cached(o) == old(self).is_cached(o),
            lists_extents(old(self).bytes(), r@),
    {
        if self.extends.is_empty() {
            self.extends = self.compute_extends();
        }
        let r = self.extends.clone();
        assert(r@ =~= self.extends@);
        r
    }

    /// The name at `index`: the text up to the next NUL byte or the end of
    /// the table. Fails with `InvalidIndex` where `index` lies outside the
    /// table. A name that was found is remembered.
    pub fn string_at(&mut self, index: i32) -> (r: Result<String, Error>)
        requires
            old(self).wf(),
        ensures
            final(self).wf(),
            final(self).bytes() == old(self).bytes(),
            lookup_outcome(*old(self), index, *final(self), r),
    {
        match self.names.get(&index) {
            Some(name) => {
                return Ok(name.clone());
            },
            None => {},
        }
        if index < 0 || index as usize >= self.data.len() {
            return Err(Error::InvalidIndex);
        }
        let start = index as usize;
        let mut end = start;
        while end < self.data.len() && self.data[end] != 0
            invariant
                start <= end <= self.data@.len(),
                text_end(self.data@, end as int) == text_end(self.data@, start as int),
            decreases self.data@.len() - end,
        {
            end = end + 1;
        }
        let name = lossy_string(slice_subrange(self.data.as_slice(), start, end));
        let kept = name.clone();
        self.names.insert(index, kept);
        Ok(name)
    }
}

} // verus!
