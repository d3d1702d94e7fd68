//! Per-task virtual-memory mapping records and the validation rules of
//! `sys_mmap` / `sys_munmap`.
//!
//! A task's address-space state is a sequence of disjoint [`MemoryMapping`]
//! records. `mmap` may only add a record whose page range is free, `munmap`
//! only removes one whole record that matches its arguments exactly. The
//! physical frames behind a record are owned by the frame-allocator
//! collaborator; this module accounts for the virtual ranges.

use vstd::prelude::*;
use vstd::assert_seqs_equal;

verus! {

/// Bytes in one page: the granularity of every mapping operation.
pub const PAGE_SIZE: usize = 4096;

/// Permission bit for readable pages.
pub const PORT_READ: usize = 1;

/// Permission bit for writable pages.
pub const PORT_WRITE: usize = 2;

/// Permission bit for executable pages.
pub const PORT_EXEC: usize = 4;

/// A `port` argument is acceptable when it has no bit outside the low three
/// and at least one of them set.
pub open spec fn port_valid(port: usize) -> bool {
    &&& port & !0x7 == 0
    &&& port & 0x7 != 0
}

/// The acceptable `port` values are exactly 1 through 7.
pub proof fn lemma_port_valid_range(port: usize)
    ensures
        port_valid(port) <==> 1 <= port <= 7,
{
    assert(port_valid(port) <==> 1 <= port <= 7) by (bit_vector);
}

/// Pages needed to cover `len` bytes: `len` rounded up to whole pages.
pub open spec fn pages_of(len: usize) -> int {
    len as int / (PAGE_SIZE as int) + if len as int % (PAGE_SIZE as int) == 0 {
        0int
    } else {
        1int
    }
}

/// One live mapping of a task: `page_count` pages starting at the
/// page-aligned virtual address `base`, with non-empty permissions drawn
/// from {read, write, execute}.
#[derive(Clone, Copy, Debug, PartialEq, Eq, Structural)]
pub struct MemoryMapping {
    /// Page-aligned first virtual address of the range.
    pub base: usize,
    /// Number of pages; always positive.
    pub page_count: usize,
    /// Permission bits as given to `mmap`: a non-empty subset of {1, 2, 4}.
    pub permissions: usize,
}

impl MemoryMapping {
    /// One past the last virtual address of the range, as an unbounded
    /// integer so that no arithmetic here wraps.
    pub open spec fn end(self) -> int {
        self.base + self.page_count * PAGE_SIZE
    }

    /// Structural invariant of a live record.
    pub open spec fn wf(self) -> bool {
        &&& self.base as int % (PAGE_SIZE as int) == 0
        &&& self.page_count > 0
        &&& port_valid(self.permissions)
        &&& self.end() <= usize::MAX
    }

    /// Two records claim no common virtual address.
    pub open spec fn disjoint(self, other: MemoryMapping) -> bool {
        self.end() <= other.base || other.end() <= self.base
    }

    /// The record shares no address with the `pages`-page range at `start`.
    pub open spec fn disjoint_from_range(self, start: usize, pages: int) -> bool {
        start + pages * PAGE_SIZE <= self.base || self.end() <= start
    }
}

/// A task's mapping set is well formed: every record is, and no two overlap.
pub open spec fn mappings_wf(s: Seq<MemoryMapping>) -> bool {
    &&& forall|i: int| 0 <= i < s.len() ==> s[i].wf()
    &&& forall|i: int, j: int| 0 <= i < j < s.len() ==> s[i].disjoint(s[j])
}

/// The `pages`-page range at `start` overlaps no record of `s`.
pub open spec fn range_free(s: Seq<MemoryMapping>, start: usize, pages: int) -> bool {
    forall|i: int| 0 <= i < s.len() ==> s[i].disjoint_from_range(start, pages)
}

/// Some record of `s` matches `start` and `pages` exactly — the only shape
/// `munmap` removes.
pub open spec fn has_exact(s: Seq<MemoryMapping>, start: usize, pages: int) -> bool {
    exists|i: int| 0 <= i < s.len() && s[i].base == start && s[i].page_count == pages
}

/// The record a successful `mmap(start, len, port)` adds.
pub open spec fn new_mapping(start: usize, len: usize, port: usize) -> MemoryMapping {
    MemoryMapping { base: start, page_count: pages_of(len) as usize, permissions: port }
}

/// `mmap` accepts a non-trivial request exactly when the permissions are
/// valid, `start` is page-aligned, the rounded range stays inside the
/// address space, and it overlaps no live record.
pub open spec fn mmap_accepts(s: Seq<MemoryMapping>, start: usize, len: usize, port: usize) -> bool {
    &&& port_valid(port)
    &&& start as int % (PAGE_SIZE as int) == 0
    &&& start + pages_of(len) * PAGE_SIZE <= usize::MAX
    &&& range_free(s, start, pages_of(len))
}

/// How `mmap` relates the mapping set before (`s`) and after (`s2`) to its
/// result `r`: zero length is a trivial success that adds nothing; otherwise
/// the call succeeds if and only if it is acceptable, adds exactly the new
/// record on success, and leaves the set untouched on failure.
pub open spec fn mmap_post(
    s: Seq<MemoryMapping>,
    s2: Seq<MemoryMapping>,
    r: isize,
    start: usize,
    len: usize,
    port: usize,
) -> bool {
    &&& r == 0 || r == -1
    &&& (r == 0) <==> (len == 0 || mmap_accepts(s, start, len, port))
    &&& (len == 0 || r == -1) ==> s2 == s
    &&& (r == 0 && len != 0) ==> s2 == s.push(new_mapping(start, len, port))
}

/// How `munmap` relates the mapping set before and after to its result:
/// it succeeds if and only if one record matches `start` and the rounded
/// length exactly, removes precisely that record, and otherwise changes
/// nothing. Partial unmaps and unmapped ranges fail.
pub open spec fn munmap_post(
    s: Seq<MemoryMapping>,
    s2: Seq<MemoryMapping>,
    r: isize,
    start: usize,
    len: usize,
) -> bool {
    &&& r == 0 || r == -1
    &&& (r == 0) <==> has_exact(s, start, pages_of(len))
    &&& r == -1 ==> s2 == s
    &&& r == 0 ==> exists|i: int|
        0 <= i < s.len() && s[i].base == start && s[i].page_count == pages_of(len) && s2 == s.remove(
            i,
        )
}

/// A non-empty request covers at least one page, and never more pages than
/// a machine word can count.
pub proof fn lemma_pages_of_bounds(len: usize)
    ensures
        len > 0 ==> pages_of(len) >= 1,
        0 <= pages_of(len) <= usize::MAX,
{
    vstd::arithmetic::div_mod::lemma_fundamental_div_mod(len as int, PAGE_SIZE as int);
}

/// An accepted `mmap` keeps the mapping set well formed: the new record is
/// itself well formed and disjoint from every live one.
pub proof fn lemma_mmap_preserves_wf(
    s: Seq<MemoryMapping>,
    s2: Seq<MemoryMapping>,
    r: isize,
    start: usize,
    len: usize,
    port: usize,
)
    requires
        mappings_wf(s),
        mmap_post(s, s2, r, start, len, port),
    ensures
        mappings_wf(s2),
{
    if r == 0 && len != 0 {
        let m = new_mapping(start, len, port);
        lemma_pages_of_bounds(len);
        assert(m.page_count == pages_of(len));
        assert(m.wf());
        assert forall|i: int| 0 <= i < s.len() implies s[i].disjoint(m) by {
            assert(s[i].disjoint_from_range(start, pages_of(len)));
        }
        assert(mappings_wf(s.push(m)));
    }
}

/// `munmap` keeps the mapping set well formed: removing a record keeps the
/// rest well formed and pairwise disjoint.
pub proof fn lemma_munmap_preserves_wf(
    s: Seq<MemoryMapping>,
    s2: Seq<MemoryMapping>,
    r: isize,
    start: usize,
    len: usize,
)
    requires
        mappings_wf(s),
        munmap_post(s, s2, r, start, len),
    ensures
        mappings_wf(s2),
{
    if r == 0 {
        let i = choose|i: int|
            0 <= i < s.len() && s[i].base == start && s[i].page_count == pages_of(len) && s2
                == s.remove(i);
        assert forall|j: int| 0 <= j < s2.len() implies s2[j].wf() by {
            if j < i {
                assert(s2[j] == s[j]);
            } else {
                assert(s2[j] == s[j + 1]);
            }
        }
        assert forall|j: int, k: int| 0 <= j < k < s2.len() implies s2[j].disjoint(s2[k]) by {
            let j0: int = if j < i {
                j
            } else {
                j + 1
            };
            let k0: int = if k < i {
                k
            } else {
                k + 1
            };
            assert(s2[j] == s[j0]);
            assert(s2[k] == s[k0]);
            assert(s[j0].disjoint(s[k0]));
        }
    }
}

/// The page ranges `[start1, start1 + pages1 * PAGE_SIZE)` and
/// `[start2, start2 + pages2 * PAGE_SIZE)` share an address.
pub open spec fn ranges_overlap(start1: usize, pages1: int, start2: usize, pages2: int) -> bool {
    !(start1 + pages1 * PAGE_SIZE <= start2 || start2 + pages2 * PAGE_SIZE <= start1)
}

/// Law: a successful `mmap(start, len, port)` followed by
/// `munmap(start, len2)` with the same rounded length restores the
/// pre-`mmap` mapping set exactly, and a second identical `munmap` from
/// the restored set fails with -1 — no double free.
pub proof fn lemma_mmap_munmap_round_trip(
    s: Seq<MemoryMapping>,
    s2: Seq<MemoryMapping>,
    s3: Seq<MemoryMapping>,
    s4: Seq<MemoryMapping>,
    r1: isize,
    r2: isize,
    r3: isize,
    start: usize,
    len: usize,
    port: usize,
    len2: usize,
)
    requires
        mappings_wf(s),
        len != 0,
        mmap_accepts(s, start, len, port),
        mmap_post(s, s2, r1, start, len, port),
        pages_of(len2) == pages_of(len),
        munmap_post(s2, s3, r2, start, len2),
        munmap_post(s3, s4, r3, start, len2),
    ensures
        r1 == 0,
        r2 == 0,
        s3 == s,
        r3 == -1,
        s4 == s,
{
    let p = pages_of(len);
    let m = new_mapping(start, len, port);
    lemma_pages_of_bounds(len);
    assert(m.page_count == p);
    assert(s2 == s.push(m));
    assert(s2[s.len() as int] == m);
    assert(has_exact(s2, start, p));
    assert(r2 == 0);
    assert forall|i: int|
        0 <= i < s.len() implies !(s[i].base == start && s[i].page_count == p) by {
        if s[i].base == start && s[i].page_count == p {
            assert(s[i].disjoint_from_range(start, p));
            assert(p * PAGE_SIZE >= 1 * PAGE_SIZE) by (nonlinear_arith)
                requires
                    p >= 1,
            ;
        }
    }
    let i = choose|i: int|
        0 <= i < s2.len() && s2[i].base == start && s2[i].page_count == p && s3 == s2.remove(i);
    assert(i == s.len());
    assert_seqs_equal!(s2.remove(s.len() as int) == s);
    assert(!has_exact(s, start, pages_of(len2)));
}

/// Law: `mmap` with a permission word that is zero or carries a bit
/// outside {read, write, execute} fails with -1 and leaves the mapping set
/// unchanged, whatever the (non-zero) length.
pub proof fn lemma_mmap_invalid_port_rejected(
    s: Seq<MemoryMapping>,
    s2: Seq<MemoryMapping>,
    r: isize,
    start: usize,
    len: usize,
    port: usize,
)
    requires
        len != 0,
        port == 0 || port & !0x7 != 0,
        mmap_post(s, s2, r, start, len, port),
    ensures
        r == -1,
        s2 == s,
{
    assert(!(port & !0x7 == 0 && port & 0x7 != 0)) by (bit_vector)
        requires
            port == 0usize || port & !0x7usize != 0,
    ;
}

/// Law: after one `mmap` succeeds, a second `mmap` whose rounded page
/// range overlaps the first fails with -1 and leaves the mapping set as
/// the first call left it.
pub proof fn lemma_mmap_overlap_rejected(
    s: Seq<MemoryMapping>,
    s1: Seq<MemoryMapping>,
    s2: Seq<MemoryMapping>,
    r2: isize,
    start1: usize,
    len1: usize,
    port1: usize,
    start2: usize,
    len2: usize,
    port2: usize,
)
    requires
        len1 != 0,
        len2 != 0,
        mmap_post(s, s1, 0, start1, len1, port1),
        ranges_overlap(start1, pages_of(len1), start2, pages_of(len2)),
        mmap_post(s1, s2, r2, start2, len2, port2),
    ensures
        r2 == -1,
        s2 == s1,
{
    let m1 = new_mapping(start1, len1, port1);
    lemma_pages_of_bounds(len1);
    assert(s1 == s.push(m1));
    assert(s1[s.len() as int] == m1);
    assert(m1.end() == start1 + pages_of(len1) * PAGE_SIZE);
    assert(!m1.disjoint_from_range(start2, pages_of(len2)));
    assert(!range_free(s1, start2, pages_of(len2)));
}

/// Rounds a byte length up to whole pages without any overflowing
/// intermediate sum.
pub fn pages_for(len: usize) -> (pages: usize)
    ensures
        pages == pages_of(len),
{
    len / PAGE_SIZE + if len % PAGE_SIZE != 0 {
        1
    } else {
        0
    }
}

/// Linear scan deciding whether the `pages`-page range at `start` is free of
/// every record in `mappings`.
fn check_range_free(mappings: &Vec<MemoryMapping>, start: usize, pages: usize) -> (free: bool)
    ensures
        free == range_free(mappings@, start, pages as int),
{
    let new_end: u128 = start as u128 + (pages as u128) * (PAGE_SIZE as u128);
    let n = mappings.len();
    let mut i: usize = 0;
    while i < n
        invariant
            i <= n,
            n == mappings@.len(),
            new_end == start + pages * PAGE_SIZE,
            forall|j: int| 0 <= j < i ==> mappings@[j].disjoint_from_range(start, pages as int),
        decreases n - i,
    {
        let m = mappings[i];
        let m_end: u128 = m.base as u128 + (m.page_count as u128) * (PAGE_SIZE as u128);
        if !(new_end <= m.base as u128 || m_end <= start as u128) {
            assert(!m.disjoint_from_range(start, pages as int));
            return false;
        }
        i += 1;
    }
    true
}

/// Linear scan for the one record that matches `start` and `pages` exactly.
fn find_exact(mappings: &Vec<MemoryMapping>, start: usize, pages: usize) -> (found: Option<usize>)
    ensures
        match found {
            Some(i) => i < mappings@.len() && mappings@[i as int].base == start
                && mappings@[i as int].page_count == pages,
            None => !has_exact(mappings@, start, pages as int),
        },
{
    let n = mappings.len();
    let mut i: usize = 0;
    while i < n
        invariant
            i <= n,
            n == mappings@.len(),
            forall|j: int|
                0 <= j < i ==> !(mappings@[j].base == start && mappings@[j].page_count == pages),
        decreases n - i,
    {
        let m = mappings[i];
        if m.base == start && m.page_count == pages {
            return Some(i);
        }
        i += 1;
    }
    None
}

/// Installs a mapping in `mappings` or rejects the request, exactly as
/// [`mmap_post`] states. The frame-allocator collaborator backs each page
/// of an accepted range; in this model allocation itself does not fail, so
/// a rejected call leaves the set untouched with nothing to roll back.
pub fn mmap_into(mappings: &mut Vec<MemoryMapping>, start: usize, len: usize, port: usize) -> (r:
    isize)
    ensures
        mmap_post(old(mappings)@, final(mappings)@, r, start, len, port),
{
    if len == 0 {
        return 0;
    }
    if port & !0x7 != 0 || port & 0x7 == 0 {
        return -1;
    }
    if start % PAGE_SIZE != 0 {
        return -1;
    }
    let pages = pages_for(len);
    let end_wide: u128 = start as u128 + (pages as u128) * (PAGE_SIZE as u128);
    if end_wide > usize::MAX as u128 {
        return -1;
    }
    if !check_range_free(mappings, start, pages) {
        return -1;
    }
    mappings.push(MemoryMapping { base: start, page_count: pages, permissions: port });
    0
}

/// Removes the one mapping that matches `start` and the rounded `len`
/// exactly, as [`munmap_post`] states; the freed range's frames go back to
/// the allocator collaborator.
pub fn munmap_from(mappings: &mut Vec<MemoryMapping>, start: usize, len: usize) -> (r: isize)
    ensures
        munmap_post(old(mappings)@, final(mappings)@, r, start, len),
{
    let pages = pages_for(len);
    match find_exact(mappings, start, pages) {
        Some(i) => {
            mappings.remove(i);
            0
        },
        None => -1,
    }
}

} // verus!
