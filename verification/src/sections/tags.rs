//! The table of tags.

use std::collections::HashMap;
use vstd::prelude::*;
use vstd::std_specs::hash::group_hash_axioms;
use crate::errors::Error;
use crate::headers::{SMXHeader, SectionEntry};
use crate::sections::base::BaseSection;
use crate::sections::names::SMXNameTable;
use crate::sections::tables::section_outcome;
use crate::v1types::TagEntry;

verus! {

broadcast use group_hash_axioms;

/// The flags that a tag's number may carry.
pub struct TagFlags;

impl TagFlags {
    pub const FIXED: u32 = 0x4000_0000;

    pub const FUNCTION: u32 = 0x2000_0000;

    pub const OBJECT: u32 = 0x1000_0000;

    pub const ENUM: u32 = 0x0800_0000;

    pub const METHODMAP: u32 = 0x0400_0000;

    pub const STRUCT: u32 = 0x0200_0000;
}

/// One tag of the table.
#[derive(Debug)]
pub struct Tag {
    entry: TagEntry,
}

impl View for Tag {
    type V = TagEntry;

    closed spec fn view(&self) -> TagEntry {
        self.entry
    }
}

impl Clone for Tag {
    fn clone(&self) -> (r: Self)
        ensures
            r == *self,
    {
        Tag { entry: self.entry.clone() }
    }
}

impl Tag {
    /// The tag's number without its flags.
    pub open spec fn spec_id(&self) -> u32 {
        self@.tag & !TagEntry::FLAGMASK
    }

    /// Whether the tag is the one that the 16-bit number `tag` names: the
    /// low 16 bits of its id are that number.
    pub open spec fn is_named(&self, tag: u16) -> bool {
        self.spec_id() % 0x1_0000 == tag
    }

    pub fn new(entry: TagEntry) -> (t: Self)
        ensures
            t@ == entry,
    {
        Self { entry }
    }

    /// The tag's number without its flags.
    pub fn id(&self) -> (r: u32)
        ensures
            r == self.spec_id(),
    {
        self.entry.tag & !TagEntry::FLAGMASK
    }

    /// The tag's number as the table holds it, flags and all.
    pub fn value(&self) -> (r: u32)
        ensures
            r == self@.tag,
    {
        self.entry.tag
    }

    /// The flags of the tag's number.
    pub fn flags(&self) -> (r: u32)
        ensures
            r == self@.tag & TagEntry::FLAGMASK,
    {
        self.entry.tag & TagEntry::FLAGMASK
    }

    /// A copy of the tag's name.
    pub fn name(&self) -> (r: String)
        ensures
            r == self@.name,
    {
        self.entry.name.clone()
    }

    /// A copy of the tag's row.
    pub fn entry(&self) -> (r: TagEntry)
        ensures
            r == self@,
    {
        self.entry.clone()
    }
}

/// Whether row `i` is the first of `tags` that the number `tag` names.
pub open spec fn first_named(tags: Seq<Tag>, tag: u16, i: int) -> bool {
    &&& 0 <= i < tags.len()
    &&& tags[i].is_named(tag)
    &&& forall|j: int| 0 <= j < i ==> !(#[trigger] tags[j]).is_named(tag)
}

/// The rows of a table of tags.
pub open spec fn rows_of_tags(tags: Seq<Tag>) -> Seq<TagEntry> {
    Seq::new(tags.len(), |i: int| tags[i]@)
}

/// The table of tags. Looking a tag up by number remembers the answer.
#[derive(Debug)]
pub struct SMXTagTable {
    tags: Vec<Tag>,
    cache: HashMap<u16, Tag>,
}

impl View for SMXTagTable {
    type V = Seq<Tag>;

    closed spec fn view(&self) -> Seq<Tag> {
        self.tags@
    }
}

impl Clone for SMXTagTable {
    fn clone(&self) -> (r: Self)
        ensures
            self.wf() ==> r.wf(),
            r@ == self@,
            forall|k: u16| r.is_cached(k) == self.is_cached(k),
    {
        let tags = self.tags.clone();
        assert(tags@ =~= self.tags@);
        let r = SMXTagTable { tags, cache: self.cache.clone() };
        proof {
            if self.wf() {
                assert forall|k: u16| #[trigger] r.cache@.contains_key(k) implies exists|i: int|
                    first_named(r.tags@, k, i) && r.cache@[k] == #[trigger] r.tags@[i] by {
                    assert(self.cache@.contains_key(k));
                    let i = choose|i: int|
                        first_named(self.tags@, k, i) && self.cache@[k] == #[trigger] self.tags@[i];
                    assert(first_named(r.tags@, k, i) && r.cache@[k] == r.tags@[i]);
                }
                assert(r.wf());
            }
        }
        r
    }
}

impl SMXTagTable {
    /// The table's invariant: each remembered answer is the first tag that
    /// its number names.
    pub closed spec fn wf(&self) -> bool {
        forall|k: u16| #[trigger]
            self.cache@.contains_key(k) ==> exists|i: int|
                first_named(self.tags@, k, i) && self.cache@[k] == #[trigger] self.tags@[i]
    }

    /// Whether the answer for `tag` is remembered.
    pub closed spec fn is_cached(&self, tag: u16) -> bool {
        self.cache@.contains_key(tag)
    }

    /// Decodes the table of the given section, each name looked up in `names`.
    pub fn new(header: &SMXHeader, section: &SectionEntry, names: &mut SMXNameTable) -> (r: Result<
        Self,
        Error,
    >)
        requires
            old(names).wf(),
        ensures
            final(names).wf(),
            final(names).bytes() == old(names).bytes(),
            r is Ok ==> r->Ok_0.wf(),
            section_outcome(
                match r {
                    Ok(t) => Ok(rows_of_tags(t@)),
                    Err(e) => Err(e),
                },
                header,
                section,
                old(names).bytes(),
            ),
    {
        let base = BaseSection::new(header, section);
        let data = base.get_data()?;
        let entries = TagEntry::new(data.as_slice(), section, names)?;
        let mut tags: Vec<Tag> = Vec::new();
        let mut i: usize = 0;
        while i < entries.len()
            invariant
                i <= entries@.len(),
                tags@.len() == i,
                forall|j: int| 0 <= j < i ==> (#[trigger] tags@[j])@ == entries@[j],
            decreases entries@.len() - i,
        {
            tags.push(Tag::new(entries[i].clone()));
            i = i + 1;
        }
        assert(rows_of_tags(tags@) =~= entries@);
        Ok(Self { tags, cache: HashMap::new() })
    }

    /// The first tag whose id, in its low 16 bits, is `tag`; `None` where
    /// the table holds no such tag. A tag that was found is remembered.
    pub fn find_tag(&mut self, tag: u16) -> (r: Option<Tag>)
        requires
            old(self).wf(),
        ensures
            final(self).wf(),
            final(self)@ == old(self)@,
            forall|k: u16|
                final(self).is_cached(k) <==> old(self).is_cached(k) || (k == tag && r is Some),
            match r {
                Some(found) => final(self).is_cached(tag) && exists|i: int|
                    first_named(old(self)@, tag, i) && found == #[trigger] old(self)@[i],
                None => forall|i: int|
                    0 <= i < old(self)@.len() ==> !(#[trigger] old(self)@[i]).is_named(tag),
            },
    {
        match self.cache.get(&tag) {
            Some(known) => {
                proof {
                    assert(self.cache@.contains_key(tag));
                    let i = choose|i: int|
                        first_named(self.tags@, tag, i) && self.cache@[tag] == #[trigger] self.tags@[i];
                    assert(first_named(old(self)@, tag, i) && *known == old(self)@[i]);
                }
                return Some(known.clone());
            },
            None => {},
        }
        let mut found: Option<Tag> = None;
        let mut i: usize = 0;
        while i < self.tags.len()
            invariant_except_break
                found is None,
                forall|j: int| 0 <= j < i ==> !(#[trigger] self.tags@[j]).is_named(tag),
            invariant
                i <= self.tags@.len(),
            ensures
                match found {
                    Some(t) => i < self.tags@.len() && first_named(self.tags@, tag, i as int) && t
                        == self.tags@[i as int],
                    None => forall|j: int|
                        0 <= j < self.tags@.len() ==> !(#[trigger] self.tags@[j]).is_named(tag),
                },
            decreases self.tags@.len() - i,
        {
            if self.tags[i].id() % 0x1_0000 == tag as u32 {
                found = Some(self.tags[i].clone());
                break ;
            }
            i = i + 1;
        }
        match &found {
            Some(v) => {
                self.cache.insert(tag, v.clone());
                proof {
                    assert forall|k: u16| #[trigger] self.cache@.contains_key(k) implies exists|
                        j: int,
                    |
                        first_named(self.tags@, k, j) && self.cache@[k] == #[trigger] self.tags@[j] by {
                        if k == tag {
                            assert(first_named(self.tags@, k, i as int) && self.cache@[k]
                                == self.tags@[i as int]);
                        } else {
                            assert(old(self).cache@.contains_key(k));
                            let j = choose|j: int|
                                first_named(old(self).tags@, k, j) && old(self).cache@[k]
                                    == #[trigger] old(self).tags@[j];
                            assert(first_named(self.tags@, k, j) && self.cache@[k] == self.tags@[j]);
                        }
                    }
                }
            },
            None => {},
        }
        found
    }

    /// A copy of the tags.
    pub fn entries(&self) -> (r: Vec<Tag>)
        ensures
            r@ == self@,
    {
        let r = self.tags.clone();
        assert(r@ =~= self.tags@);
        r
    }

    /// A copy of the tag at `index`.
    pub fn get_entry(&self, index: usize) -> (r: Tag)
        requires
            index < self@.len(),
        ensures
            r == self@[index as int],
    {
        self.tags[index].clone()
    }

    /// The number of tags.
    pub fn len(&self) -> (n: usize)
        ensures
            n == self@.len(),
    {
        self.tags.len()
    }

    /// Whether the table holds no tag.
    pub fn is_empty(&self) -> (b: bool)
        ensures
            b == (self@.len() == 0),
    {
        self.tags.is_empty()
    }
}

} // verus!
