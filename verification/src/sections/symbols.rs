//! The tables of variables, and the lookup of a variable by address.

use vstd::prelude::*;
use vstd::seq_lib::{to_multiset_build, to_multiset_insert};
use crate::errors::Error;
use crate::file::SMXFile;
use crate::headers::{section_bytes, SMXHeader, SectionEntry};
use crate::reader::{le_u32, readable};
use crate::rtti::tables::{plain_table_outcome, read_plain_table, RTTIMethod};
use crate::v1types::{DebugMethodEntry, DebugVarEntry};

verus! {

/// Whether the addresses of the rows never fall from one row to the next.
pub open spec fn address_ascending(rows: Seq<DebugVarEntry>) -> bool {
    forall|i: int, j: int|
        0 <= i <= j < rows.len() ==> (#[trigger] rows[i]).address <= (#[trigger] rows[j]).address
}

/// The first index from `from` on whose row has an address above `address`;
/// the number of rows where there is none.
pub open spec fn first_above(rows: Seq<DebugVarEntry>, address: i32, from: int) -> int
    decreases rows.len() - from,
{
    if from < 0 || from >= rows.len() || rows[from].address > address {
        from
    } else {
        first_above(rows, address, from + 1)
    }
}

/// The rows in ascending order of address; rows of one address stay in the
/// order in which the table holds them. Each row goes, in turn, behind the
/// rows placed so far whose address is not above its own.
pub open spec fn sorted_by_address(rows: Seq<DebugVarEntry>) -> Seq<DebugVarEntry>
    decreases rows.len(),
{
    if rows.len() == 0 {
        rows
    } else {
        let placed = sorted_by_address(rows.drop_last());
        placed.insert(first_above(placed, rows.last().address, 0), rows.last())
    }
}

/// `first_above` lies between `from` and the end; the rows from `from` up to
/// it are not above `address`, and the row at it, if there is one, is.
pub proof fn lemma_first_above(rows: Seq<DebugVarEntry>, address: i32, from: int)
    requires
        0 <= from <= rows.len(),
    ensures
        from <= first_above(rows, address, from) <= rows.len(),
        forall|k: int| from <= k < first_above(rows, address, from) ==> rows[k].address <= address,
        first_above(rows, address, from) < rows.len() ==> rows[first_above(
            rows,
            address,
            from,
        )].address > address,
    decreases rows.len() - from,
{
    if from < rows.len() && rows[from].address <= address {
        lemma_first_above(rows, address, from + 1);
    }
}

/// Sorting by address keeps every row, as often as it occurs, and puts the
/// rows in ascending order of address.
pub proof fn lemma_sorted_by_address(rows: Seq<DebugVarEntry>)
    ensures
        sorted_by_address(rows).len() == rows.len(),
        sorted_by_address(rows).to_multiset() == rows.to_multiset(),
        address_ascending(sorted_by_address(rows)),
    decreases rows.len(),
{
    if rows.len() > 0 {
        let front = rows.drop_last();
        let last = rows.last();
        lemma_sorted_by_address(front);
        let placed = sorted_by_address(front);
        let at = first_above(placed, last.address, 0);
        lemma_first_above(placed, last.address, 0);
        to_multiset_insert(placed, at, last);
        to_multiset_build(front, last);
        assert(front.push(last) =~= rows);
        let sorted = placed.insert(at, last);
        assert forall|i: int, j: int| 0 <= i <= j < sorted.len() implies (#[trigger] sorted[i]).address
            <= (#[trigger] sorted[j]).address by {
            if i < at && j > at {
                assert(placed[i].address <= placed[j - 1].address);
            } else if i < at && j < at {
                assert(placed[i].address <= placed[j].address);
            } else if i > at {
                assert(placed[i - 1].address <= placed[j - 1].address);
            } else if i == at && j > at {
                assert(placed[at].address <= placed[j - 1].address);
            }
        }
    }
}

/// The rows at one address, in their order.
pub open spec fn rows_at(rows: Seq<DebugVarEntry>, address: i32) -> Seq<DebugVarEntry> {
    rows.filter(|row: DebugVarEntry| row.address == address)
}

proof fn lemma_rows_at_none(rows: Seq<DebugVarEntry>, address: i32)
    requires
        forall|i: int| 0 <= i < rows.len() ==> (#[trigger] rows[i]).address != address,
    ensures
        rows_at(rows, address) == Seq::<DebugVarEntry>::empty(),
    decreases rows.len(),
{
    reveal(Seq::filter);
    if rows.len() > 0 {
        lemma_rows_at_none(rows.drop_last(), address);
    }
}

/// Sorting by address is stable: the rows at one address come out in the
/// order in which they went in.
pub proof fn lemma_sorting_is_stable(rows: Seq<DebugVarEntry>, address: i32)
    ensures
        rows_at(sorted_by_address(rows), address) == rows_at(rows, address),
    decreases rows.len(),
{
    reveal(Seq::filter);
    if rows.len() > 0 {
        let front = rows.drop_last();
        let last = rows.last();
        lemma_sorting_is_stable(front, address);
        lemma_sorted_by_address(front);
        let placed = sorted_by_address(front);
        let at = first_above(placed, last.address, 0);
        lemma_first_above(placed, last.address, 0);
        let here = |row: DebugVarEntry| row.address == address;
        let left = placed.subrange(0, at);
        let right = placed.subrange(at, placed.len() as int);
        let one = seq![last];
        assert(placed =~= left + right);
        assert(placed.insert(at, last) =~= left + one + right);
        Seq::filter_distributes_over_add(left, right, here);
        Seq::filter_distributes_over_add(left + one, right, here);
        Seq::filter_distributes_over_add(left, one, here);
        assert(one.drop_last() =~= Seq::<DebugVarEntry>::empty());
        assert(one.drop_last().filter(here) =~= Seq::<DebugVarEntry>::empty());
        if last.address == address {
            assert forall|i: int| 0 <= i < right.len() implies (#[trigger] right[i]).address
                != address by {
                assert(placed[at].address <= placed[at + i].address);
            }
            lemma_rows_at_none(right, address);
            assert(one.filter(here) =~= one);
            assert(rows_at(placed.insert(at, last), address) =~= rows_at(placed, address).push(
                last,
            ));
        } else {
            assert(one.filter(here) =~= Seq::<DebugVarEntry>::empty());
            assert(rows_at(placed.insert(at, last), address) =~= rows_at(placed, address));
        }
    }
}

/// Whether row `i` of rows in ascending order answers for `addr`: it is the
/// first row at `addr`; or it lies below `addr` and the row behind it lies
/// above.
pub open spec fn answers(rows: Seq<DebugVarEntry>, addr: i32, i: int) -> bool {
    &&& 0 <= i < rows.len()
    &&& {
        ||| rows[i].address == addr && forall|j: int|
            0 <= j < i ==> (#[trigger] rows[j]).address != addr
        ||| rows[i].address < addr && i + 1 < rows.len() && addr < rows[i + 1].address
    }
}

/// Among rows in ascending order, at most one answers for an address.
pub proof fn lemma_answer_unique(rows: Seq<DebugVarEntry>, addr: i32, i: int, j: int)
    requires
        address_ascending(rows),
        answers(rows, addr, i),
        answers(rows, addr, j),
    ensures
        i == j,
{
    if i < j {
        assert(rows[i].address <= rows[j].address);
        if i + 1 < rows.len() {
            assert(rows[i + 1].address <= rows[j].address);
        }
    } else if j < i {
        assert(rows[j].address <= rows[i].address);
        if j + 1 < rows.len() {
            assert(rows[j + 1].address <= rows[i].address);
        }
    }
}

/// The table of variables, with a copy in ascending order of address that
/// is made when it is first asked for.
#[derive(Debug)]
pub struct SMXDebugSymbols {
    entries: Vec<DebugVarEntry>,
    address_sorted: Vec<DebugVarEntry>,
}

impl View for SMXDebugSymbols {
    type V = Seq<DebugVarEntry>;

    closed spec fn view(&self) -> Seq<DebugVarEntry> {
        self.entries@
    }
}

impl Clone for SMXDebugSymbols {
    fn clone(&self) -> (r: Self)
        ensures
            self.wf() ==> r.wf(),
            r@ == self@,
            r.sorted_view() == self.sorted_view(),
    {
        let entries = self.entries.clone();
        let address_sorted = self.address_sorted.clone();
        assert(entries@ =~= self.entries@);
        assert(address_sorted@ =~= self.address_sorted@);
        SMXDebugSymbols { entries, address_sorted }
    }
}

impl SMXDebugSymbols {
    /// The table's invariant: the sorted copy is either not made yet or
    /// holds the rows in ascending order of address.
    pub closed spec fn wf(&self) -> bool {
        &&& self.entries@.len() <= i32::MAX
        &&& self.address_sorted@.len() == 0 || self.address_sorted@ == sorted_by_address(
            self.entries@,
        )
    }

    /// The sorted copy as it stands: empty until it is made.
    pub closed spec fn sorted_view(&self) -> Seq<DebugVarEntry> {
        self.address_sorted@
    }

    /// Decodes the row table of the given section.
    pub fn new(header: &SMXHeader, section: &SectionEntry) -> (r: Result<Self, Error>)
        ensures
            r is Ok ==> r->Ok_0.wf() && r->Ok_0.sorted_view().len() == 0,
            plain_table_outcome(
                match r {
                    Ok(t) => Ok(t@),
                    Err(e) => Err(e),
                },
                header,
                section,
            ),
    {
        let entries = read_plain_table::<DebugVarEntry>(header, section)?;
        proof {
            let data = section_bytes(header, section);
            let count = le_u32(data, 8);
            assert(entries@.len() <= i32::MAX) by {
                if count > 0 {
                    assert(readable(data, 12, count * 21));
                    assert(data.len() <= i32::MAX);
                }
            }
        }
        Ok(Self { entries, address_sorted: Vec::new() })
    }

    /// Makes the sorted copy unless it is there: the rows in ascending order
    /// of address, rows of one address in the order of the table.
    pub fn ensure_sorted_addresses(&mut self)
        requires
            old(self).wf(),
        ensures
            final(self).wf(),
            final(self)@ == old(self)@,
            final(self).sorted_view() == sorted_by_address(old(self)@),
    {
        if !self.address_sorted.is_empty() {
            return ;
        }
        let mut sorted: Vec<DebugVarEntry> = Vec::new();
        let mut i: usize = 0;
        while i < self.entries.len()
            invariant
                i <= self.entries@.len(),
                sorted@ == sorted_by_address(self.entries@.take(i as int)),
            decreases self.entries@.len() - i,
        {
            let row = self.entries[i];
            let mut at: usize = 0;
            proof {
                lemma_sorted_by_address(self.entries@.take(i as int));
            }
            while at < sorted.len() && sorted[at].address <= row.address
                invariant
                    at <= sorted@.len(),
                    first_above(sorted@, row.address, at as int) == first_above(
                        sorted@,
                        row.address,
                        0,
                    ),
                decreases sorted@.len() - at,
            {
                at = at + 1;
            }
            proof {
                assert(self.entries@.take(i + 1).drop_last() =~= self.entries@.take(i as int));
                assert(self.entries@.take(i + 1).last() == row);
            }
            sorted.insert(at, row);
            i = i + 1;
        }
        proof {
            assert(self.entries@.take(self.entries@.len() as int) =~= self.entries@);
        }
        self.address_sorted = sorted;
    }

    /// A copy of the rows.
    pub fn entries(&self) -> (r: Vec<DebugVarEntry>)
        ensures
            r@ == self@,
    {
        let r = self.entries.clone();
        assert(r@ =~= self.entries@);
        r
    }

    /// The rows themselves.
    pub fn entries_ref(&self) -> (r: &Vec<DebugVarEntry>)
        ensures
            r@ == self@,
    {
        &self.entries
    }

    /// The number of rows.
    pub fn entries_len(&self) -> (n: usize)
        ensures
            n == self@.len(),
    {
        self.entries.len()
    }

    /// Whether the table holds no row.
    pub fn is_entry_empty(&self) -> (b: bool)
        ensures
            b == (self@.len() == 0),
    {
        self.entries.is_empty()
    }

    /// A copy of the sorted copy as it stands: empty until it is made.
    pub fn address_sorted(&self) -> (r: Vec<DebugVarEntry>)
        ensures
            r@ == self.sorted_view(),
    {
        let r = self.address_sorted.clone();
        assert(r@ =~= self.address_sorted@);
        r
    }
}

/// The global variables.
#[derive(Debug)]
pub struct SMXDebugGlobals {
    debug_symbols: SMXDebugSymbols,
}

impl View for SMXDebugGlobals {
    type V = Seq<DebugVarEntry>;

    closed spec fn view(&self) -> Seq<DebugVarEntry> {
        self.debug_symbols@
    }
}

impl Clone for SMXDebugGlobals {
    fn clone(&self) -> (r: Self)
        ensures
            self.wf() ==> r.wf(),
            r@ == self@,
    {
        SMXDebugGlobals { debug_symbols: self.debug_symbols.clone() }
    }
}

impl SMXDebugGlobals {
    /// The table's invariant: that of its rows.
    pub closed spec fn wf(&self) -> bool {
        self.debug_symbols.wf()
    }

    /// Decodes the row table of the given section.
    pub fn new(header: &SMXHeader, section: &SectionEntry) -> (r: Result<Self, Error>)
        ensures
            r is Ok ==> r->Ok_0.wf(),
            plain_table_outcome(
                match r {
                    Ok(t) => Ok(t@),
                    Err(e) => Err(e),
                },
                header,
                section,
            ),
    {
        Ok(Self { debug_symbols: SMXDebugSymbols::new(header, section)? })
    }

    /// The global variable at `addr`. With the rows in ascending order of
    /// address, that is the first row at `addr`; or, where there is none,
    /// the row below `addr` whose next row lies above `addr`. No variable
    /// answers for an address below the first row or above the last.
    pub fn find_global(&mut self, addr: i32) -> (r: Option<DebugVarEntry>)
        requires
            old(self).wf(),
        ensures
            final(self).wf(),
            final(self)@ == old(self)@,
            match r {
                Some(found) => exists|i: int| #[trigger]
                    answers(sorted_by_address(old(self)@), addr, i) && found == sorted_by_address(
                        old(self)@,
                    )[i],
                None => forall|i: int| !answers(sorted_by_address(old(self)@), addr, i),
            },
    {
        self.debug_symbols.ensure_sorted_addresses();
        let ghost rows = sorted_by_address(old(self)@);
        proof {
            lemma_sorted_by_address(old(self)@);
        }
        let len = self.debug_symbols.address_sorted.len();
        let mut i: usize = 0;
        while i < len
            invariant
                i <= len == rows.len(),
                self.wf(),
                self@ == old(self)@,
                rows == sorted_by_address(old(self)@),
                rows == self.debug_symbols.address_sorted@,
                address_ascending(rows),
                forall|j: int| 0 <= j < i ==> (#[trigger] rows[j]).address < addr,
                forall|j: int| 0 <= j < i && j + 1 < len ==> (#[trigger] rows[j + 1]).address <= addr,
            decreases len - i,
        {
            let sym = self.debug_symbols.address_sorted[i];
            if sym.address == addr {
                assert(answers(rows, addr, i as int));
                return Some(sym);
            }
            if addr < sym.address {
                proof {
                    assert(i == 0) by {
                        if i > 0 {
                            assert(rows[(i - 1) + 1].address <= addr);
                        }
                    }
                    assert forall|k: int| !answers(rows, addr, k) by {
                        if 0 <= k < rows.len() {
                            assert(rows[0].address <= rows[k].address);
                        }
                    }
                }
                return None;
            }
            if i == len - 1 {
                proof {
                    assert forall|k: int| !answers(rows, addr, k) by {
                        if 0 <= k < rows.len() && k + 1 < rows.len() {
                            assert(rows[k + 1].address <= addr);
                        }
                    }
                }
                return None;
            }
            let next_sym = self.debug_symbols.address_sorted[i + 1];
            if addr > sym.address && addr < next_sym.address {
                assert(answers(rows, addr, i as int));
                return Some(sym);
            }
            i = i + 1;
        }
        None
    }
}

/// Whether a code address lies inside a method: behind its first address
/// and before its end.
pub open spec fn encloses(method: RTTIMethod, code_addr: i32) -> bool {
    method.pcode_start < code_addr < method.pcode_end
}

/// The index of the first row from `from` on whose method encloses
/// `code_addr`, or `None` where none does; `InvalidIndex` where a row that
/// is reached names a method that the table of methods does not hold.
pub open spec fn enclosing_method(
    debug: Seq<DebugMethodEntry>,
    methods: Seq<RTTIMethod>,
    code_addr: i32,
    from: int,
) -> Result<Option<int>, Error>
    decreases debug.len() - from,
{
    if from < 0 || from >= debug.len() {
        Ok(None)
    } else if !(0 <= debug[from].method_index < methods.len()) {
        Err(Error::InvalidIndex)
    } else if encloses(methods[debug[from].method_index as int], code_addr) {
        Ok(Some(from))
    } else {
        enclosing_method(debug, methods, code_addr, from + 1)
    }
}

/// Whether row `i` names a method of the table that encloses `code_addr`.
pub open spec fn names_enclosing(
    debug: Seq<DebugMethodEntry>,
    methods: Seq<RTTIMethod>,
    code_addr: i32,
    i: int,
) -> bool {
    &&& 0 <= i < debug.len()
    &&& 0 <= debug[i].method_index < methods.len()
    &&& encloses(methods[debug[i].method_index as int], code_addr)
}

/// Where every row names a method of the table, the search for the
/// enclosing method never fails: it gives the first row whose method
/// encloses the address, and `None` where no row's method does.
pub proof fn lemma_enclosing_method(
    debug: Seq<DebugMethodEntry>,
    methods: Seq<RTTIMethod>,
    code_addr: i32,
    from: int,
)
    requires
        0 <= from,
        forall|i: int|
            0 <= i < debug.len() ==> 0 <= (#[trigger] debug[i]).method_index < methods.len(),
    ensures
        match enclosing_method(debug, methods, code_addr, from) {
            Ok(Some(hit)) => from <= hit && names_enclosing(debug, methods, code_addr, hit)
                && forall|j: int| from <= j < hit ==> !names_enclosing(debug, methods, code_addr, j),
            Ok(None) => forall|j: int| from <= j ==> !names_enclosing(debug, methods, code_addr, j),
            Err(_) => false,
        },
    decreases debug.len() - from,
{
    if from < debug.len() {
        if !encloses(methods[debug[from].method_index as int], code_addr) {
            lemma_enclosing_method(debug, methods, code_addr, from + 1);
        }
    }
}

/// The rows that are searched for the locals of a method: from its first
/// local up to the first local of the method behind it, or up to the end of
/// the table for the last method. Without a method, all `len` rows.
pub open spec fn local_window(debug: Seq<DebugMethodEntry>, hit: Option<int>, len: int) -> (
    int,
    int,
) {
    match hit {
        None => (0, len),
        Some(i) => (
            debug[i].first_local as int,
            if i + 1 < debug.len() {
                debug[i + 1].first_local as int
            } else {
                len
            },
        ),
    }
}

/// Whether a variable lives at a code address.
pub open spec fn is_live(sym: DebugVarEntry, code_addr: i32) -> bool {
    sym.code_start <= code_addr < sym.code_end
}

/// Whether row `i` of a window that ends before `stop` answers for `addr`
/// at `code_addr`: it lives there, and it lies at `addr`, or below `addr`
/// with the row behind it, still in the window, above `addr`.
pub open spec fn answers_locally(
    rows: Seq<DebugVarEntry>,
    code_addr: i32,
    addr: i32,
    i: int,
    stop: int,
) -> bool {
    &&& 0 <= i < rows.len()
    &&& i < stop
    &&& is_live(rows[i], code_addr)
    &&& {
        ||| rows[i].address == addr
        ||| rows[i].address < addr && i + 1 < stop && i + 1 < rows.len() && addr < rows[i
            + 1].address
    }
}

/// The first row from `from` up to `stop` that answers for `addr` at
/// `code_addr`, or `None` where none does; `InvalidIndex` where a row that
/// is reached, or the row behind one that is compared with it, lies outside
/// the table.
pub open spec fn scan_locals(
    rows: Seq<DebugVarEntry>,
    code_addr: i32,
    addr: i32,
    from: int,
    stop: int,
) -> Result<Option<DebugVarEntry>, Error>
    decreases stop - from,
{
    if from >= stop {
        Ok(None)
    } else if !(0 <= from < rows.len()) {
        Err(Error::InvalidIndex)
    } else if !is_live(rows[from], code_addr) {
        scan_locals(rows, code_addr, addr, from + 1, stop)
    } else if rows[from].address == addr {
        Ok(Some(rows[from]))
    } else if from == stop - 1 {
        Ok(None)
    } else if from + 1 >= rows.len() {
        Err(Error::InvalidIndex)
    } else if rows[from].address < addr < rows[from + 1].address {
        Ok(Some(rows[from]))
    } else {
        scan_locals(rows, code_addr, addr, from + 1, stop)
    }
}

/// The local variable at `addr` for code at `code_addr`: the tables of
/// methods, where the image has both, give the window of the method that
/// encloses `code_addr`; the window is then searched.
pub open spec fn local_lookup(
    file: &SMXFile,
    rows: Seq<DebugVarEntry>,
    code_addr: i32,
    addr: i32,
) -> Result<Option<DebugVarEntry>, Error> {
    match (file.debug_methods, file.rtti_methods) {
        (Some(debug), Some(methods)) => match enclosing_method(debug@, methods@, code_addr, 0) {
            Err(e) => Err(e),
            Ok(hit) => {
                let (start, stop) = local_window(debug@, hit, rows.len() as int);
                scan_locals(rows, code_addr, addr, start, stop)
            },
        },
        _ => scan_locals(rows, code_addr, addr, 0, rows.len() as int),
    }
}

/// In a window that lies inside the table, the search never fails: it gives
/// the first row that answers, and `None` where no row of the window does.
pub proof fn lemma_scan_locals(
    rows: Seq<DebugVarEntry>,
    code_addr: i32,
    addr: i32,
    from: int,
    stop: int,
)
    requires
        0 <= from,
        stop <= rows.len(),
    ensures
        match scan_locals(rows, code_addr, addr, from, stop) {
            Ok(Some(found)) => exists|i: int|
                from <= i && #[trigger] answers_locally(rows, code_addr, addr, i, stop) && found
                    == rows[i] && forall|j: int|
                    from <= j < i ==> !answers_locally(rows, code_addr, addr, j, stop),
            Ok(None) => forall|i: int|
                from <= i ==> !answers_locally(rows, code_addr, addr, i, stop),
            Err(_) => false,
        },
    decreases stop - from,
{
    if from < stop {
        if is_live(rows[from], code_addr) && (rows[from].address == addr || (from != stop - 1
            && rows[from].address < addr < rows[from + 1].address)) {
            assert(answers_locally(rows, code_addr, addr, from, stop));
        } else if is_live(rows[from], code_addr) && from == stop - 1 {
        } else {
            lemma_scan_locals(rows, code_addr, addr, from + 1, stop);
            match scan_locals(rows, code_addr, addr, from + 1, stop) {
                Ok(Some(found)) => {
                    let i = choose|i: int|
                        from + 1 <= i && #[trigger] answers_locally(rows, code_addr, addr, i, stop)
                            && found == rows[i] && forall|j: int|
                            from + 1 <= j < i ==> !answers_locally(rows, code_addr, addr, j, stop);
                    assert(from <= i && answers_locally(rows, code_addr, addr, i, stop));
                },
                _ => {},
            }
        }
    }
}

/// The local variables, with the tables that say which belong to which
/// method.
#[derive(Debug)]
pub struct SMXDebugLocals<'a> {
    file: &'a SMXFile,
    debug_symbols: SMXDebugSymbols,
}

impl<'a> View for SMXDebugLocals<'a> {
    type V = Seq<DebugVarEntry>;

    closed spec fn view(&self) -> Seq<DebugVarEntry> {
        self.debug_symbols@
    }
}

impl<'a> Clone for SMXDebugLocals<'a> {
    fn clone(&self) -> (r: Self)
        ensures
            self.wf() ==> r.wf(),
            r@ == self@,
            r.file() == self.file(),
    {
        SMXDebugLocals { file: self.file, debug_symbols: self.debug_symbols.clone() }
    }
}

impl<'a> SMXDebugLocals<'a> {
    /// The table's invariant: that of its rows.
    pub closed spec fn wf(&self) -> bool {
        self.debug_symbols.wf()
    }

    /// The tables of the image.
    pub closed spec fn file(&self) -> &'a SMXFile {
        self.file
    }

    /// Decodes the row table of the given section.
    pub fn new(file: &'a SMXFile, header: &SMXHeader, section: &SectionEntry) -> (r: Result<
        Self,
        Error,
    >)
        ensures
            r is Ok ==> r->Ok_0.wf() && r->Ok_0.file() == file,
            plain_table_outcome(
                match r {
                    Ok(t) => Ok(t@),
                    Err(e) => Err(e),
                },
                header,
                section,
            ),
    {
        Ok(Self { file, debug_symbols: SMXDebugSymbols::new(header, section)? })
    }

    /// The local variable at `addr` for code at `code_addr`. Where the
    /// image has both tables of methods, only the locals of the method that
    /// encloses `code_addr` are searched, else all rows. A row answers if
    /// the variable lives at `code_addr` and lies at `addr`, or below `addr`
    /// with the row behind it above `addr`; the first such row is given.
    /// Fails with `InvalidIndex` where the tables name a method or a row
    /// that is not there.
    pub fn find_local(&self, code_addr: i32, addr: i32) -> (r: Result<Option<DebugVarEntry>, Error>)
        requires
            self.wf(),
        ensures
            r == local_lookup(self.file(), self@, code_addr, addr),
    {
        let rows = self.debug_symbols.entries_ref();
        let ghost goal = local_lookup(self.file(), self@, code_addr, addr);
        let mut start_at: i32 = 0;
        let mut stop_at: i32 = self.debug_symbols.entries_len() as i32;
        match (&self.file.debug_methods, &self.file.rtti_methods) {
            (Some(debug_methods), Some(rtti_methods)) => {
                let debug = debug_methods.entries_ref();
                let methods = rtti_methods.methods_ref();
                let mut index: Option<usize> = None;
                let mut i: usize = 0;
                while i < debug.len()
                    invariant_except_break
                        index is None,
                        enclosing_method(debug@, methods@, code_addr, i as int)
                            == enclosing_method(debug@, methods@, code_addr, 0),
                    invariant
                        i <= debug@.len(),
                        goal == local_lookup(self.file(), self@, code_addr, addr),
                        goal == match enclosing_method(debug@, methods@, code_addr, 0) {
                            Err(e) => Err::<Option<DebugVarEntry>, Error>(e),
                            Ok(hit) => scan_locals(
                                self@,
                                code_addr,
                                addr,
                                local_window(debug@, hit, self@.len() as int).0,
                                local_window(debug@, hit, self@.len() as int).1,
                            ),
                        },
                    ensures
                        enclosing_method(debug@, methods@, code_addr, 0) == Ok::<
                            Option<int>,
                            Error,
                        >(
                            match index {
                                Some(at) => Some(at as int),
                                None => None,
                            },
                        ),
                        index matches Some(at) ==> at < debug@.len(),
                    decreases debug@.len() - i,
                {
                    let method_index: i32 = debug[i].method_index;
                    if method_index < 0 || method_index as usize >= methods.len() {
                        return Err(Error::InvalidIndex);
                    }
                    let method: &RTTIMethod = &methods[method_index as usize];
                    if code_addr > method.pcode_start && code_addr < method.pcode_end {
                        index = Some(i);
                        break ;
                    }
                    i = i + 1;
                }
                if let Some(i) = index {
                    start_at = debug[i].first_local;
                    if i != debug.len() - 1 {
                        stop_at = debug[i + 1].first_local;
                    }
                }
            },
            _ => {},
        }
        let mut i: i32 = start_at;
        while i < stop_at
            invariant
                start_at <= i,
                rows@ == self@,
                goal == local_lookup(self.file(), self@, code_addr, addr),
                goal == scan_locals(rows@, code_addr, addr, start_at as int, stop_at as int),
                scan_locals(rows@, code_addr, addr, i as int, stop_at as int) == scan_locals(
                    rows@,
                    code_addr,
                    addr,
                    start_at as int,
                    stop_at as int,
                ),
            decreases stop_at - i,
        {
            if i < 0 || i as usize >= rows.len() {
                return Err(Error::InvalidIndex);
            }
            let sym: DebugVarEntry = rows[i as usize];
            if code_addr < sym.code_start || code_addr >= sym.code_end {
                i = i + 1;
                continue ;
            }
            if sym.address == addr {
                return Ok(Some(sym));
            }
            if i == stop_at - 1 {
                return Ok(None);
            }
            if (i + 1) as usize >= rows.len() {
                return Err(Error::InvalidIndex);
            }
            let next_sym: DebugVarEntry = rows[(i + 1) as usize];
            if addr > sym.address && addr < next_sym.address {
                return Ok(Some(sym));
            }
            i = i + 1;
        }
        Ok(None)
    }
}

} // verus!
