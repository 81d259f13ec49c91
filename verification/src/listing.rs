//! The paginated directory listing and the focus cursor that points
//! into it.
//!
//! A listing chunks the enumerated entry names, in enumeration order,
//! into pages of a fixed capacity; only the last page may be shorter.
//! It also carries the column-alignment maxima recomputed over the
//! whole listing: the width of the longest name and the width of the
//! longest decimal size rendering.

use vstd::prelude::*;
use vstd::arithmetic::div_mod::lemma_div_multiples_vanish_fancy;
use vstd::arithmetic::mul::lemma_mul_is_distributive_add_other_way;
use vstd::arithmetic::mul::lemma_mul_is_distributive_sub_other_way;
use vstd::string::StrSliceExecFns;

use crate::numfmt::dec_len;
use crate::numfmt::u64_to_string;

verus! {

/// The names held by a sequence of pages, concatenated in page order.
pub open spec fn entries_of(pages: Seq<Vec<String>>) -> Seq<String> {
    pages.map_values(|p: Vec<String>| p@).flatten()
}

/// The length of the longest name in `names`.
pub open spec fn max_name_len(names: Seq<String>) -> nat
    decreases names.len(),
{
    if names.len() == 0 {
        0
    } else if max_name_len(names.drop_last()) >= names.last()@.len() {
        max_name_len(names.drop_last())
    } else {
        names.last()@.len()
    }
}

/// The length of the longest decimal rendering among `sizes`.
pub open spec fn max_size_len(sizes: Seq<u64>) -> nat
    decreases sizes.len(),
{
    if sizes.len() == 0 {
        0
    } else if max_size_len(sizes.drop_last()) >= dec_len(sizes.last() as nat) {
        max_size_len(sizes.drop_last())
    } else {
        dec_len(sizes.last() as nat)
    }
}

/// The number of pages that `n` entries need at capacity `c`: the
/// ceiling of `n / c`, and zero when the listing is empty.
pub open spec fn page_count(n: nat, c: nat) -> nat
    recommends
        c > 0,
{
    ((n + c - 1) / (c as int)) as nat
}

/// Directory entries split into fixed-capacity pages, with the
/// column-alignment maxima of the whole listing.
pub struct DirectoryListing {
    pub pages: Vec<Vec<String>>,
    pub capacity: usize,
    pub max_name_width: usize,
    pub max_size_width: usize,
}

impl DirectoryListing {
    /// Page shape invariant: a positive capacity, no page above it,
    /// every page but the last exactly at it, and no empty page.
    pub open spec fn wf(self) -> bool {
        &&& self.capacity > 0
        &&& forall|i: int|
            0 <= i < self.pages@.len() ==> #[trigger] self.pages@[i]@.len() <= self.capacity
        &&& forall|i: int|
            0 <= i < self.pages@.len() - 1 ==> #[trigger] self.pages@[i]@.len() == self.capacity
        &&& forall|i: int| 0 <= i < self.pages@.len() ==> #[trigger] self.pages@[i]@.len() > 0
    }

    /// All entry names in enumeration order.
    pub open spec fn entries(self) -> Seq<String> {
        entries_of(self.pages@)
    }

    /// An empty listing: no pages at all.
    pub fn empty(capacity: usize) -> (r: DirectoryListing)
        requires
            capacity > 0,
        ensures
            r.wf(),
            r.capacity == capacity,
            r.pages@.len() == 0,
            r.max_name_width == 0,
            r.max_size_width == 0,
    {
        DirectoryListing { pages: Vec::new(), capacity, max_name_width: 0, max_size_width: 0 }
    }

    /// Rebuilds a listing from the enumerated entry names and their
    /// sizes in bytes: the names are chunked, in order, into
    /// `ceil(n / capacity)` pages of at most `capacity` entries, and
    /// the alignment maxima are recomputed over all entries. An empty
    /// enumeration yields zero pages, not one empty page.
    #[verifier::rlimit(50)]
    pub fn rebuild(entries: Vec<String>, sizes: &Vec<u64>, capacity: usize) -> (r:
        DirectoryListing)
        requires
            capacity > 0,
            entries@.len() == sizes@.len(),
        ensures
            r.wf(),
            r.capacity == capacity,
            r.entries() == entries@,
            r.pages@.len() == page_count(entries@.len(), capacity as nat),
            r.pages@.len() > 0 ==> r.pages@[r.pages@.len() - 1]@.len() == entries@.len() - (
            r.pages@.len() - 1) * (capacity as int),
            r.max_name_width as nat == max_name_len(entries@),
            r.max_size_width as nat == max_size_len(sizes@),
    {
        let ghost all = entries@;
        let mut pages: Vec<Vec<String>> = Vec::new();
        let mut cur: Vec<String> = Vec::new();
        let mut max_name_width: usize = 0;
        let mut max_size_width: usize = 0;
        let mut i: usize = 0;
        while i < entries.len()
            invariant
                capacity > 0,
                i <= all.len(),
                entries@ == all,
                sizes@.len() == all.len(),
                cur@.len() < capacity,
                forall|j: int| 0 <= j < pages@.len() ==> #[trigger] pages@[j]@.len() == capacity,
                entries_of(pages@) + cur@ == all.take(i as int),
                i as int == pages@.len() * capacity + cur@.len(),
                max_name_width as nat == max_name_len(all.take(i as int)),
                max_size_width as nat == max_size_len(
                    sizes@.take(i as int).map_values(|s: u64| s),
                ),
            decreases entries@.len() - i,
        {
            let name = entries[i].clone();
            let name_len = name.as_str().unicode_len();
            if name_len > max_name_width {
                max_name_width = name_len;
            }
            let size_text = u64_to_string(sizes[i]);
            let size_len = size_text.as_str().unicode_len();
            if size_len > max_size_width {
                max_size_width = size_len;
            }
            cur.push(name);
            proof {
                assert(all.take(i + 1).drop_last() =~= all.take(i as int));
                assert(sizes@.take(i + 1).map_values(|s: u64| s).drop_last() =~= sizes@.take(
                    i as int,
                ).map_values(|s: u64| s));
                assert(entries_of(pages@) + cur@ =~= all.take(i + 1));
            }
            if cur.len() == capacity {
                let ghost old_pages = pages@;
                let full = cur;
                cur = Vec::new();
                pages.push(full);
                proof {
                    assert(pages@.map_values(|p: Vec<String>| p@) =~= old_pages.map_values(
                        |p: Vec<String>| p@,
                    ).push(full@));
                    old_pages.map_values(|p: Vec<String>| p@).lemma_flatten_push(full@);
                    assert(entries_of(pages@) =~= entries_of(old_pages) + full@);
                    assert(entries_of(pages@) + cur@ =~= all.take(i + 1));
                    assert((old_pages.len() + 1) * capacity == old_pages.len() * capacity
                        + capacity) by {
                        lemma_mul_is_distributive_add_other_way(
                            capacity as int,
                            old_pages.len() as int,
                            1,
                        );
                    }
                }
            }
            i = i + 1;
        }
        proof {
            assert(all.take(i as int) =~= all);
            assert(sizes@.take(i as int).map_values(|s: u64| s) =~= sizes@.map_values(
                |s: u64| s,
            ));
            lemma_max_size_len_map_identity(sizes@);
        }
        let ghost full_pages = pages@.len();
        if cur.len() > 0 {
            let ghost old_pages = pages@;
            pages.push(cur);
            proof {
                assert(pages@.map_values(|p: Vec<String>| p@) =~= old_pages.map_values(
                    |p: Vec<String>| p@,
                ).push(pages@.last()@));
                old_pages.map_values(|p: Vec<String>| p@).lemma_flatten_push(pages@.last()@);
                assert(entries_of(pages@) =~= all);
                assert(all.len() == full_pages * capacity + pages@.last()@.len());
                lemma_div_multiples_vanish_fancy(
                    full_pages as int + 1,
                    pages@.last()@.len() as int - 1,
                    capacity as int,
                );
                assert((capacity as int) * (full_pages as int + 1) == full_pages * capacity
                    + capacity) by {
                    lemma_mul_is_distributive_add_other_way(
                        capacity as int,
                        full_pages as int,
                        1,
                    );
                    assert((capacity as int) * (full_pages as int) == full_pages * capacity)
                        by (nonlinear_arith);
                }
                assert(pages@.len() == page_count(all.len(), capacity as nat));
                assert(pages@[pages@.len() - 1]@.len() == all.len() - (pages@.len() - 1) * (
                capacity as int));
            }
        } else {
            proof {
                assert(entries_of(pages@) + cur@ =~= entries_of(pages@));
                assert(all.len() == full_pages * capacity);
                lemma_div_multiples_vanish_fancy(
                    full_pages as int,
                    capacity as int - 1,
                    capacity as int,
                );
                assert((capacity as int) * (full_pages as int) == full_pages * capacity)
                    by (nonlinear_arith);
                assert(pages@.len() == page_count(all.len(), capacity as nat));
                if pages@.len() > 0 {
                    assert((full_pages - 1) * (capacity as int) == full_pages * capacity
                        - capacity) by {
                        lemma_mul_is_distributive_sub_other_way(
                            capacity as int,
                            full_pages as int,
                            1,
                        );
                    }
                    assert(pages@[pages@.len() - 1]@.len() == all.len() - (pages@.len() - 1) * (
                    capacity as int));
                }
            }
        }
        DirectoryListing { pages, capacity, max_name_width, max_size_width }
    }
}

proof fn lemma_max_size_len_map_identity(sizes: Seq<u64>)
    ensures
        max_size_len(sizes.map_values(|s: u64| s)) == max_size_len(sizes),
    decreases sizes.len(),
{
    if sizes.len() > 0 {
        assert(sizes.map_values(|s: u64| s).drop_last() =~= sizes.drop_last().map_values(
            |s: u64| s,
        ));
        lemma_max_size_len_map_identity(sizes.drop_last());
    }
}

/// A (page index, row index) pointer into a `DirectoryListing`.
#[derive(Clone, Copy, Debug, PartialEq, Eq, Structural)]
pub struct FocusCursor {
    pub page_index: usize,
    pub row_index: usize,
}

/// The cursor invariant: while the listing is non-empty the cursor
/// addresses an existing entry; over an empty listing it is inert.
pub open spec fn cursor_wf(c: FocusCursor, l: DirectoryListing) -> bool {
    l.pages@.len() > 0 ==> {
        &&& c.page_index < l.pages@.len()
        &&& c.row_index < l.pages@[c.page_index as int]@.len()
    }
}

/// Where `move_down` goes: the next row of the current page, else the
/// first row of the next page, else (at the bottom, or over an empty
/// listing) nowhere.
pub open spec fn spec_move_down(c: FocusCursor, l: DirectoryListing) -> FocusCursor {
    if l.pages@.len() == 0 {
        c
    } else if c.row_index + 1 < l.pages@[c.page_index as int]@.len() {
        FocusCursor { page_index: c.page_index, row_index: (c.row_index + 1) as usize }
    } else if c.page_index + 1 < l.pages@.len() {
        FocusCursor { page_index: (c.page_index + 1) as usize, row_index: 0 }
    } else {
        c
    }
}

/// Where `move_up` goes: the previous row of the current page, else
/// the last real row of the previous page, else (at the top, or over
/// an empty listing) nowhere.
pub open spec fn spec_move_up(c: FocusCursor, l: DirectoryListing) -> FocusCursor {
    if l.pages@.len() == 0 {
        c
    } else if c.row_index > 0 {
        FocusCursor { page_index: c.page_index, row_index: (c.row_index - 1) as usize }
    } else if c.page_index > 0 {
        FocusCursor {
            page_index: (c.page_index - 1) as usize,
            row_index: (l.pages@[c.page_index - 1]@.len() - 1) as usize,
        }
    } else {
        c
    }
}

impl FocusCursor {
    pub fn new() -> (r: FocusCursor)
        ensures
            r.page_index == 0,
            r.row_index == 0,
    {
        FocusCursor { page_index: 0, row_index: 0 }
    }

    /// Back to the first entry; done whenever the listing is rebuilt.
    pub fn reset(&mut self)
        ensures
            final(self).page_index == 0,
            final(self).row_index == 0,
    {
        self.page_index = 0;
        self.row_index = 0;
    }

    /// One step down, crossing onto the next page when the current
    /// one is exhausted; a no-op at the bottom of the listing.
    pub fn move_down(&mut self, listing: &DirectoryListing)
        requires
            listing.wf(),
            cursor_wf(*old(self), *listing),
        ensures
            *final(self) == spec_move_down(*old(self), *listing),
            cursor_wf(*final(self), *listing),
    {
        if listing.pages.len() == 0 {
            return ;
        }
        let page_len = listing.pages[self.page_index].len();
        if self.row_index + 1 < page_len {
            self.row_index = self.row_index + 1;
        } else if self.page_index + 1 < listing.pages.len() {
            self.page_index = self.page_index + 1;
            self.row_index = 0;
        }
    }

    /// One step up, crossing onto the previous page's last real row
    /// when at the top of a page; a no-op at the top of the listing.
    pub fn move_up(&mut self, listing: &DirectoryListing)
        requires
            listing.wf(),
            cursor_wf(*old(self), *listing),
        ensures
            *final(self) == spec_move_up(*old(self), *listing),
            cursor_wf(*final(self), *listing),
    {
        if listing.pages.len() == 0 {
            return ;
        }
        if self.row_index > 0 {
            self.row_index = self.row_index - 1;
        } else if self.page_index > 0 {
            self.page_index = self.page_index - 1;
            self.row_index = listing.pages[self.page_index].len() - 1;
        }
    }
}

/// The cursor invariant survives every navigation step: over a
/// well-formed listing, a cursor that addresses an existing entry
/// still does so after a move in either direction, and the reset
/// cursor addresses one whenever the listing is non-empty.
pub proof fn lemma_cursor_invariant_preserved(c: FocusCursor, l: DirectoryListing)
    requires
        l.wf(),
        cursor_wf(c, l),
    ensures
        cursor_wf(spec_move_down(c, l), l),
        cursor_wf(spec_move_up(c, l), l),
        cursor_wf(FocusCursor { page_index: 0, row_index: 0 }, l),
{
    vstd::std_specs::vec::axiom_spec_len(&l.pages);
    assert(l.pages@.len() <= usize::MAX);
    if l.pages@.len() > 0 {
        assert(l.pages@[c.page_index as int]@.len() <= l.capacity);
    }
}

/// Local invertibility of navigation: from any position where
/// `move_down` actually moves, `move_up` returns to it.
pub proof fn lemma_move_down_up_round_trip(c: FocusCursor, l: DirectoryListing)
    requires
        l.wf(),
        cursor_wf(c, l),
        spec_move_down(c, l) != c,
    ensures
        spec_move_up(spec_move_down(c, l), l) == c,
{
    vstd::std_specs::vec::axiom_spec_len(&l.pages);
    assert(l.pages@.len() <= usize::MAX);
    assert(l.pages@[c.page_index as int]@.len() <= l.capacity);
    let d = spec_move_down(c, l);
    if c.row_index + 1 < l.pages@[c.page_index as int]@.len() {
        assert(d.row_index == c.row_index + 1);
        assert(spec_move_up(d, l) == c);
    } else {
        assert(c.page_index + 1 < l.pages@.len());
        assert(l.pages@[c.page_index as int]@.len() == c.row_index + 1);
        assert(d.page_index == c.page_index + 1 && d.row_index == 0);
        let u = spec_move_up(d, l);
        assert(u.page_index == c.page_index);
        assert(u.row_index == c.row_index);
        assert(u == c);
    }
}

/// At the bottom of the listing (and over an empty listing)
/// `move_down` is a no-op, and at the top `move_up` is one.
pub proof fn lemma_moves_stop_at_boundaries(c: FocusCursor, l: DirectoryListing)
    requires
        l.wf(),
        cursor_wf(c, l),
    ensures
        c.page_index + 1 == l.pages@.len() && c.row_index + 1 == l.pages@[
            c.page_index as int
        ]@.len() ==> spec_move_down(c, l) == c,
        c.page_index == 0 && c.row_index == 0 ==> spec_move_up(c, l) == c,
        l.pages@.len() == 0 ==> spec_move_down(c, l) == c && spec_move_up(c, l) == c,
{
}

} // verus!
