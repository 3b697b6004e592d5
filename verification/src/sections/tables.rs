//! The tables of natives, publics, public variables and called functions.

use vstd::prelude::*;
use vstd::string::StringExecFns;
use crate::errors::Error;
use crate::headers::{section_bytes, section_fault, SMXHeader, SectionEntry};
use crate::records::Record;
use crate::sections::base::BaseSection;
use crate::sections::names::SMXNameTable;
use crate::text::{hex_string, hexadecimal};
use crate::v1types::{flat_outcome, CalledFunctionEntry, NativeEntry, PubvarEntry, PublicEntry};

verus! {

/// Whether `r` is the outcome of decoding the given section as a run of
/// records: the fault of the section's place; else `InvalidSize` where its
/// size is not a multiple of the width of a record; else its records, or the
/// error of the first that cannot be decoded.
pub open spec fn section_outcome<R: Record>(
    r: Result<Seq<R>, Error>,
    header: &SMXHeader,
    section: &SectionEntry,
    names: Seq<u8>,
) -> bool {
    match section_fault(header, section) {
        Some(e) => r == Err::<Seq<R>, Error>(e),
        None => flat_outcome(r, section_bytes(header, section), section.size as int, names),
    }
}

/// The table of the natives that the image calls.
#[derive(Debug)]
pub struct SMXNativeTable {
    natives: Vec<NativeEntry>,
}

impl View for SMXNativeTable {
    type V = Seq<NativeEntry>;

    closed spec fn view(&self) -> Seq<NativeEntry> {
        self.natives@
    }
}

impl Clone for SMXNativeTable {
    fn clone(&self) -> (r: Self)
        ensures
            r@ == self@,
    {
        let natives = self.natives.clone();
        assert(natives@ =~= self.natives@);
        SMXNativeTable { natives }
    }
}

impl SMXNativeTable {
    /// Decodes the table of the given section, each name looked up in `names`.
    pub fn new(header: &SMXHeader, section: &SectionEntry, names: &mut SMXNameTable) -> (r: Result<
        Self,
        Error,
    >)
        requires
            old(names).wf(),
        ensures
            final(names).wf(),
            final(names).bytes() == old(names).bytes(),
            section_outcome(
                match r {
                    Ok(t) => Ok(t@),
                    Err(e) => Err(e),
                },
                header,
                section,
                old(names).bytes(),
            ),
    {
        let base = BaseSection::new(header, section);
        let data = base.get_data()?;
        let natives = NativeEntry::new(data.as_slice(), section, names)?;
        Ok(Self { natives })
    }

    /// A copy of the rows.
    pub fn entries(&self) -> (r: Vec<NativeEntry>)
        ensures
            r@ == self@,
    {
        let r = self.natives.clone();
        assert(r@ =~= self.natives@);
        r
    }

    /// A copy of the row at `index`.
    pub fn get_entry(&self, index: usize) -> (r: NativeEntry)
        requires
            index < self@.len(),
        ensures
            r == self@[index as int],
    {
        self.natives[index].clone()
    }

    /// The number of rows.
    pub fn size(&self) -> (n: usize)
        ensures
            n == self@.len(),
    {
        self.natives.len()
    }
}

/// The table of public functions.
#[derive(Debug)]
pub struct SMXPublicTable {
    publics: Vec<PublicEntry>,
}

impl View for SMXPublicTable {
    type V = Seq<PublicEntry>;

    closed spec fn view(&self) -> Seq<PublicEntry> {
        self.publics@
    }
}

impl Clone for SMXPublicTable {
    fn clone(&self) -> (r: Self)
        ensures
            r@ == self@,
    {
        let publics = self.publics.clone();
        assert(publics@ =~= self.publics@);
        SMXPublicTable { publics }
    }
}

impl SMXPublicTable {
    /// Decodes the table of the given section, each name looked up in `names`.
    pub fn new(header: &SMXHeader, section: &SectionEntry, names: &mut SMXNameTable) -> (r: Result<
        Self,
        Error,
    >)
        requires
            old(names).wf(),
        ensures
            final(names).wf(),
            final(names).bytes() == old(names).bytes(),
            section_outcome(
                match r {
                    Ok(t) => Ok(t@),
                    Err(e) => Err(e),
                },
                header,
                section,
                old(names).bytes(),
            ),
    {
        let base = BaseSection::new(header, section);
        let data = base.get_data()?;
        let publics = PublicEntry::new(data.as_slice(), section, names)?;
        Ok(Self { publics })
    }

    /// A copy of the rows.
    pub fn entries(&self) -> (r: Vec<PublicEntry>)
        ensures
            r@ == self@,
    {
        let r = self.publics.clone();
        assert(r@ =~= self.publics@);
        r
    }

    /// The rows themselves.
    pub fn entries_ref(&self) -> (r: &Vec<PublicEntry>)
        ensures
            r@ == self@,
    {
        &self.publics
    }

    /// A copy of the row at `index`.
    pub fn get_entry(&self, index: usize) -> (r: PublicEntry)
        requires
            index < self@.len(),
        ensures
            r == self@[index as int],
    {
        self.publics[index].clone()
    }

    /// The number of rows.
    pub fn size(&self) -> (n: usize)
        ensures
            n == self@.len(),
    {
        self.publics.len()
    }
}

/// The table of public variables.
#[derive(Debug)]
pub struct SMXPubvarTable {
    public_variables: Vec<PubvarEntry>,
}

impl View for SMXPubvarTable {
    type V = Seq<PubvarEntry>;

    closed spec fn view(&self) -> Seq<PubvarEntry> {
        self.public_variables@
    }
}

impl Clone for SMXPubvarTable {
    fn clone(&self) -> (r: Self)
        ensures
            r@ == self@,
    {
        let public_variables = self.public_variables.clone();
        assert(public_variables@ =~= self.public_variables@);
        SMXPubvarTable { public_variables }
    }
}

impl SMXPubvarTable {
    /// Decodes the table of the given section, each name looked up in `names`.
    pub fn new(header: &SMXHeader, section: &SectionEntry, names: &mut SMXNameTable) -> (r: Result<
        Self,
        Error,
    >)
        requires
            old(names).wf(),
        ensures
            final(names).wf(),
            final(names).bytes() == old(names).bytes(),
            section_outcome(
                match r {
                    Ok(t) => Ok(t@),
                    Err(e) => Err(e),
                },
                header,
                section,
                old(names).bytes(),
            ),
    {
        let base = BaseSection::new(header, section);
        let data = base.get_data()?;
        let public_variables = PubvarEntry::new(data.as_slice(), section, names)?;
        Ok(Self { public_variables })
    }

    /// A copy of the rows.
    pub fn entries(&self) -> (r: Vec<PubvarEntry>)
        ensures
            r@ == self@,
    {
        let r = self.public_variables.clone();
        assert(r@ =~= self.public_variables@);
        r
    }

    /// A copy of the row at `index`.
    pub fn get_entry(&self, index: usize) -> (r: PubvarEntry)
        requires
            index < self@.len(),
        ensures
            r == self@[index as int],
    {
        self.public_variables[index].clone()
    }

    /// The number of rows.
    pub fn size(&self) -> (n: usize)
        ensures
            n == self@.len(),
    {
        self.public_variables.len()
    }
}

/// The functions that the code calls and that no table names. The table is
/// filled while the code is read.
#[derive(Debug)]
pub struct SMXCalledFunctionsTable {
    functions: Vec<CalledFunctionEntry>,
}

impl View for SMXCalledFunctionsTable {
    type V = Seq<CalledFunctionEntry>;

    closed spec fn view(&self) -> Seq<CalledFunctionEntry> {
        self.functions@
    }
}

impl Clone for SMXCalledFunctionsTable {
    fn clone(&self) -> (r: Self)
        ensures
            r@ == self@,
    {
        let functions = self.functions.clone();
        assert(functions@ =~= self.functions@);
        SMXCalledFunctionsTable { functions }
    }
}

impl Default for SMXCalledFunctionsTable {
    fn default() -> (t: Self)
        ensures
            t@.len() == 0,
    {
        Self::new()
    }
}

/// The name made for the function at `addr`: `sub_` and the address in
/// hexadecimal.
pub open spec fn called_name(addr: u32) -> Seq<char> {
    "sub_"@ + hexadecimal(addr as nat)
}

impl SMXCalledFunctionsTable {
    /// An empty table.
    pub fn new() -> (t: Self)
        ensures
            t@.len() == 0,
    {
        Self { functions: Vec::new() }
    }

    /// Adds the function at `addr` behind the rows that are there.
    pub fn add_function(&mut self, addr: u32)
        ensures
            final(self)@.len() == old(self)@.len() + 1,
            final(self)@.drop_last() == old(self)@,
            final(self)@.last().address == addr,
            final(self)@.last().name@ == called_name(addr),
    {
        let mut name = String::from_str("sub_");
        name.append(hex_string(addr).as_str());
        self.functions.push(CalledFunctionEntry { address: addr, name });
        assert(self.functions@.drop_last() =~= old(self).functions@);
    }

    /// A copy of the rows.
    pub fn entries(&self) -> (r: Vec<CalledFunctionEntry>)
        ensures
            r@ == self@,
    {
        let r = self.functions.clone();
        assert(r@ =~= self.functions@);
        r
    }

    /// The rows themselves.
    pub fn entries_ref(&self) -> (r: &Vec<CalledFunctionEntry>)
        ensures
            r@ == self@,
    {
        &self.functions
    }

    /// A copy of the row at `index`.
    pub fn get_entry(&self, index: usize) -> (r: CalledFunctionEntry)
        requires
            index < self@.len(),
        ensures
            r == self@[index as int],
    {
        self.functions[index].clone()
    }

    /// The number of rows.
    pub fn size(&self) -> (n: usize)
        ensures
            n == self@.len(),
    {
        self.functions.len()
    }
}

} // verus!
