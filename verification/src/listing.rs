//! Listings: the live rows of a scan, in order, windowed by a cursor.
//!
//! The backing table has neither an order nor an offset, so every listing
//! starts from a full scan. A listing keeps the rows that are not tombstoned
//! (and, unless asked otherwise, not flagged), puts them in ascending order of
//! creation with ties broken by key, and returns what follows the row named
//! by the cursor. The work is quadratic in the number of live rows: the
//! collections this is meant for hold a few thousand rows at most.

use vstd::prelude::*;
use vstd::seq_lib::*;
use crate::record::{Record, precedes, ordered, distinct_keys, comes_before, lemma_precedes_order};

verus! {

/// Whether a row belongs in a listing.
pub open spec fn listed<R: Record>(r: R, include_flagged: bool) -> bool {
    r.deleted_at().is_none() && (include_flagged || !r.flagged())
}

/// The rows of a scan that belong in a listing, in scan order.
pub open spec fn live_rows<R: Record>(rows: Seq<R>, include_flagged: bool) -> Seq<R> {
    rows.filter(|r: R| listed(r, include_flagged))
}

/// `i` is the first position of `s` whose row has key `k`.
pub open spec fn first_with_key<R: Record>(s: Seq<R>, k: <R::Key as View>::V, i: int) -> bool {
    &&& 0 <= i < s.len()
    &&& s[i].key() == k
    &&& forall|j: int| 0 <= j < i ==> s[j].key() != k
}

/// The position that a cursor names in `s`, if any row has that key.
pub open spec fn cursor_index<R: Record>(s: Seq<R>, k: <R::Key as View>::V) -> Option<int> {
    if exists|i: int| first_with_key(s, k, i) {
        Some(choose|i: int| first_with_key(s, k, i))
    } else {
        None
    }
}

/// The window of `s` that a cursor selects: everything strictly after the
/// row that the cursor names. Without a cursor, and with a cursor that names
/// no row of `s`, the window is all of `s`.
pub open spec fn page_after<R: Record>(s: Seq<R>, after: Option<<R::Key as View>::V>) -> Seq<R> {
    match after {
        None => s,
        Some(k) => match cursor_index(s, k) {
            Some(i) => s.skip(i + 1),
            None => s,
        },
    }
}

/// `sorted` is the listing of `rows`: the live rows, each as often as the
/// scan holds it, in listing order.
pub open spec fn is_listing<R: Record>(rows: Seq<R>, include_flagged: bool, sorted: Seq<R>) -> bool {
    &&& ordered(sorted)
    &&& sorted.to_multiset() == live_rows(rows, include_flagged).to_multiset()
}

/// `page` is what a listing of `rows` returns for the cursor `after`.
pub open spec fn is_page<R: Record>(
    rows: Seq<R>,
    include_flagged: bool,
    after: Option<<R::Key as View>::V>,
    page: Seq<R>,
) -> bool {
    exists|sorted: Seq<R>| #[trigger] is_listing(rows, include_flagged, sorted) && page == page_after(sorted, after)
}

/// Copies the rows that belong in a listing, keeping scan order.
pub fn select_live<R: Record>(rows: &Vec<R>, include_flagged: bool) -> (out: Vec<R>)
    ensures
        out@ == live_rows(rows@, include_flagged),
{
    let mut out: Vec<R> = Vec::new();
    let mut i: usize = 0;
    let ghost pred = |r: R| listed(r, include_flagged);
    proof {
        reveal(Seq::filter);
        assert(rows@.take(0).filter(pred) =~= Seq::<R>::empty());
    }
    while i < rows.len()
        invariant
            i <= rows.len(),
            pred == (|r: R| listed(r, include_flagged)),
            out@ == rows@.take(i as int).filter(pred),
        decreases rows.len() - i,
    {
        let row = &rows[i];
        let keep = !row.is_deleted() && (include_flagged || !row.is_flagged());
        proof {
            rows@.lemma_take_succ_push(i as int);
            rows@.take(i as int).lemma_filter_push(rows@[i as int], pred);
            assert(keep == pred(rows@[i as int]));
        }
        if keep {
            out.push(row.duplicate());
        }
        i += 1;
    }
    proof {
        rows@.lemma_take_len();
    }
    out
}

/// Puts `row` into an ordered vector at the place that keeps it ordered,
/// behind the rows that it does not precede.
pub fn insert_ordered<R: Record>(sorted: &mut Vec<R>, row: R)
    requires
        ordered(old(sorted)@),
    ensures
        ordered(final(sorted)@),
        final(sorted)@.to_multiset() == old(sorted)@.to_multiset().insert(row),
        final(sorted)@.len() == old(sorted)@.len() + 1,
{
    let mut p: usize = 0;
    while p < sorted.len() && !comes_before(&row, &sorted[p])
        invariant
            p <= sorted.len(),
            forall|j: int| 0 <= j < p ==> !precedes(row, #[trigger] sorted@[j]),
        decreases sorted.len() - p,
    {
        p += 1;
    }
    let ghost before = sorted@;
    sorted.insert(p, row);
    proof {
        to_multiset_insert(before, p as int, row);
        let after = sorted@;
        assert forall|i: int, j: int| 0 <= i < j < after.len() implies !precedes(after[j], after[i]) by {
            if j == p {
                assert(after[i] == before[i]);
            } else if i == p {
                assert(after[j] == before[j - 1]);
                assert(precedes(row, before[p as int]));
                if j - 1 > p {
                    assert(!precedes(before[j - 1], before[p as int]));
                }
                lemma_precedes_order(after[j], row, before[p as int]);
            } else {
                let bi = if i < p { i } else { i - 1 };
                let bj = if j < p { j } else { j - 1 };
                assert(after[i] == before[bi]);
                assert(after[j] == before[bj]);
            }
        }
    }
}

/// Sorts rows into listing order.
pub fn sort_rows<R: Record>(rows: Vec<R>) -> (sorted: Vec<R>)
    ensures
        ordered(sorted@),
        sorted@.to_multiset() == rows@.to_multiset(),
        sorted@.len() == rows@.len(),
{
    let mut rest = rows;
    let mut sorted: Vec<R> = Vec::new();
    proof {
        assert(sorted@.to_multiset().add(rest@.to_multiset()) =~= rows@.to_multiset()) by {
            sorted@.to_multiset_ensures();
            broadcast use vstd::multiset::group_multiset_axioms;
            assert(sorted@.to_multiset().len() == 0);
            assert(sorted@.to_multiset() =~= vstd::multiset::Multiset::<R>::empty());
        }
    }
    while rest.len() > 0
        invariant
            ordered(sorted@),
            sorted@.to_multiset().add(rest@.to_multiset()) == rows@.to_multiset(),
            sorted@.len() + rest@.len() == rows@.len(),
        decreases rest.len(),
    {
        let ghost rest_before = rest@;
        let ghost sorted_before = sorted@;
        let row = rest.pop().unwrap();
        insert_ordered(&mut sorted, row);
        proof {
            broadcast use vstd::multiset::group_multiset_axioms;
            assert(rest_before =~= rest@.push(row));
            to_multiset_build(rest@, row);
            assert(sorted@.to_multiset().add(rest@.to_multiset()) =~= sorted_before.to_multiset().add(
                rest_before.to_multiset(),
            ));
        }
    }
    proof {
        broadcast use vstd::multiset::group_multiset_axioms;
        rest@.to_multiset_ensures();
        assert(rest@.to_multiset() =~= vstd::multiset::Multiset::<R>::empty());
        assert(sorted@.to_multiset().add(rest@.to_multiset()) =~= sorted@.to_multiset());
    }
    sorted
}

/// The key that a cursor holds.
pub open spec fn cursor_key<K: View>(after: Option<&K>) -> Option<K::V> {
    match after {
        Some(k) => Some(k@),
        None => None,
    }
}

/// Cuts an ordered listing down to what follows the cursor.
pub fn window_after<R: Record>(sorted: Vec<R>, after: Option<&R::Key>) -> (page: Vec<R>)
    ensures
        page@ == page_after(sorted@, cursor_key(after)),
{
    let mut sorted = sorted;
    match after {
        None => sorted,
        Some(key) => {
            let mut i: usize = 0;
            while i < sorted.len() && !sorted[i].has_key(key)
                invariant
                    i <= sorted.len(),
                    forall|j: int| 0 <= j < i ==> sorted@[j].key() != key@,
                decreases sorted.len() - i,
            {
                i += 1;
            }
            if i < sorted.len() {
                proof {
                    assert(first_with_key(sorted@, key@, i as int));
                    lemma_first_with_key_unique(sorted@, key@, i as int);
                }
                let page = sorted.split_off(i + 1);
                page
            } else {
                proof {
                    assert(forall|j: int| !first_with_key(sorted@, key@, j));
                }
                sorted
            }
        },
    }
}

/// Lists the live rows of a scan.
///
/// Returns the number of rows in the scan, tombstoned and flagged rows
/// included, and the window of the listing that the cursor selects. The count
/// is that of the whole scan on purpose: it tells how many rows the table
/// holds, not how many are shown.
pub fn list_undeleted<R: Record>(rows: &Vec<R>, after: Option<&R::Key>, include_flagged: bool) -> (out: (
    usize,
    Vec<R>,
))
    ensures
        out.0 == rows@.len(),
        out.1@.len() <= out.0,
        is_page(rows@, include_flagged, cursor_key(after), out.1@),
        ordered(out.1@),
        forall|i: int| 0 <= i < out.1@.len() ==> (#[trigger] out.1@[i]).deleted_at().is_none(),
        forall|i: int| 0 <= i < out.1@.len() ==> listed(#[trigger] out.1@[i], include_flagged),
        forall|i: int| 0 <= i < out.1@.len() ==> rows@.contains(#[trigger] out.1@[i]),
{
    let total = rows.len();
    let live = select_live(rows, include_flagged);
    let sorted = sort_rows(live);
    let ghost listing = sorted@;
    let page = window_after(sorted, after);
    proof {
        assert(is_listing(rows@, include_flagged, listing));
        lemma_page_rows(rows@, include_flagged, cursor_key(after), page@);
    }
    (total, page)
}

/// At most one position is the first with a given key, so a cursor names at
/// most one row.
pub proof fn lemma_first_with_key_unique<R: Record>(s: Seq<R>, k: <R::Key as View>::V, i: int)
    requires
        first_with_key(s, k, i),
    ensures
        cursor_index(s, k) == Some(i),
{
    let c = choose|c: int| first_with_key(s, k, c);
    assert(first_with_key(s, k, c));
    if c < i {
        assert(s[c].key() != k);
    } else if i < c {
        assert(s[i].key() != k);
    }
}

/// Every row of a listing is a live row of the scan, and a listing is no
/// longer than the scan.
pub proof fn lemma_listing_rows<R: Record>(rows: Seq<R>, include_flagged: bool, sorted: Seq<R>)
    requires
        is_listing(rows, include_flagged, sorted),
    ensures
        sorted.len() == live_rows(rows, include_flagged).len(),
        sorted.len() <= rows.len(),
        forall|i: int| 0 <= i < sorted.len() ==> listed(#[trigger] sorted[i], include_flagged),
        forall|i: int| 0 <= i < sorted.len() ==> rows.contains(#[trigger] sorted[i]),
{
    let pred = |r: R| listed(r, include_flagged);
    let live = rows.filter(pred);
    to_multiset_len(sorted);
    to_multiset_len(live);
    rows.lemma_filter_len(pred);
    assert forall|i: int| 0 <= i < sorted.len() implies listed(#[trigger] sorted[i], include_flagged)
        && rows.contains(sorted[i]) by {
        let r = sorted[i];
        assert(sorted.contains(r));
        to_multiset_contains(sorted, r);
        to_multiset_contains(live, r);
        assert(live.contains(r));
        let j = choose|j: int| 0 <= j < live.len() && live[j] == r;
        rows.lemma_filter_pred(pred, j);
        rows.lemma_filter_contains_rev(pred, r);
    }
}

/// No page of a listing holds a tombstoned row, every row of a page comes
/// from the scan, pages are in listing order, and the scan is at least as
/// long as any of its pages.
pub proof fn lemma_page_rows<R: Record>(
    rows: Seq<R>,
    include_flagged: bool,
    after: Option<<R::Key as View>::V>,
    page: Seq<R>,
)
    requires
        is_page(rows, include_flagged, after, page),
    ensures
        page.len() <= rows.len(),
        ordered(page),
        forall|i: int| 0 <= i < page.len() ==> (#[trigger] page[i]).deleted_at().is_none(),
        forall|i: int| 0 <= i < page.len() ==> listed(#[trigger] page[i], include_flagged),
        forall|i: int| 0 <= i < page.len() ==> rows.contains(#[trigger] page[i]),
{
    let sorted = choose|sorted: Seq<R>| #[trigger]
        is_listing(rows, include_flagged, sorted) && page == page_after(sorted, after);
    lemma_listing_rows(rows, include_flagged, sorted);
    if page != sorted {
        let k = after.unwrap();
        let c = cursor_index(sorted, k).unwrap();
        assert(first_with_key(sorted, k, c));
        assert(page == sorted.skip(c + 1));
        assert forall|i: int| 0 <= i < page.len() implies page[i] == sorted[i + c + 1] by {}
        assert forall|i: int, j: int| 0 <= i < j < page.len() implies !precedes(page[j], page[i]) by {
            assert(page[i] == sorted[i + c + 1]);
            assert(page[j] == sorted[j + c + 1]);
        }
        assert forall|i: int| 0 <= i < page.len() implies listed(#[trigger] page[i], include_flagged)
            && rows.contains(page[i]) by {
            assert(page[i] == sorted[i + c + 1]);
        }
    }
}

/// Where no two rows of a scan share a key, no two live rows do.
pub proof fn lemma_live_rows_distinct<R: Record>(rows: Seq<R>, include_flagged: bool)
    requires
        distinct_keys(rows),
    ensures
        distinct_keys(live_rows(rows, include_flagged)),
        live_rows(rows, include_flagged).no_duplicates(),
    decreases rows.len(),
{
    let pred = |r: R| listed(r, include_flagged);
    reveal(Seq::filter);
    if rows.len() > 0 {
        let rest = rows.drop_last();
        assert forall|i: int, j: int| 0 <= i < j < rest.len() implies rest[i].key() != rest[j].key() by {
            assert(rest[i] == rows[i]);
            assert(rest[j] == rows[j]);
        }
        lemma_live_rows_distinct(rest, include_flagged);
        let live_rest = rest.filter(pred);
        let live = rows.filter(pred);
        if pred(rows.last()) {
            assert(live == live_rest.push(rows.last()));
            assert forall|i: int, j: int| 0 <= i < j < live.len() implies live[i].key() != live[j].key() by {
                if j == live.len() - 1 {
                    assert(live_rest.contains(live_rest[i]));
                    rest.lemma_filter_contains_rev(pred, live_rest[i]);
                    let p = choose|p: int| 0 <= p < rest.len() && rest[p] == live_rest[i];
                    assert(rows[p] == live[i]);
                    assert(rows[rows.len() - 1] == live[j]);
                } else {
                    assert(live[i] == live_rest[i]);
                    assert(live[j] == live_rest[j]);
                }
            }
        } else {
            assert(live == live_rest);
        }
    }
    let live = live_rows(rows, include_flagged);
    assert forall|i: int, j: int| 0 <= i < live.len() && 0 <= j < live.len() && i != j implies live[i]
        != live[j] by {
        if i < j {
            assert(live[i].key() != live[j].key());
        } else {
            assert(live[j].key() != live[i].key());
        }
    }
}

/// Where no two rows of a scan share a key, no two rows of its listing do.
pub proof fn lemma_listing_distinct<R: Record>(rows: Seq<R>, include_flagged: bool, sorted: Seq<R>)
    requires
        distinct_keys(rows),
        is_listing(rows, include_flagged, sorted),
    ensures
        distinct_keys(sorted),
{
    let live = live_rows(rows, include_flagged);
    lemma_live_rows_distinct(rows, include_flagged);
    live.lemma_multiset_has_no_duplicates();
    sorted.lemma_multiset_has_no_duplicates_conv();
    assert forall|i: int, j: int| 0 <= i < j < sorted.len() implies sorted[i].key() != sorted[j].key() by {
        assert(sorted[i] != sorted[j]);
        let a = sorted[i];
        let b = sorted[j];
        assert(sorted.contains(a) && sorted.contains(b));
        to_multiset_contains(sorted, a);
        to_multiset_contains(sorted, b);
        to_multiset_contains(live, a);
        to_multiset_contains(live, b);
        let p = choose|p: int| 0 <= p < live.len() && live[p] == a;
        let q = choose|q: int| 0 <= q < live.len() && live[q] == b;
        if p < q {
            assert(live[p].key() != live[q].key());
        } else {
            assert(live[q].key() != live[p].key());
        }
    }
}

/// Pagination is exhaustive. In a listing whose keys are distinct, the
/// cursor that names the row at position `i` selects exactly the rows behind
/// position `i`: the rows up to the cursor and the page after it make up the
/// listing, each row once and in order. Without a cursor the page is the
/// whole listing, and the cursor that names the last row selects nothing.
pub proof fn lemma_pagination_exhaustive<R: Record>(sorted: Seq<R>, i: int)
    requires
        distinct_keys(sorted),
        0 <= i < sorted.len(),
    ensures
        page_after(sorted, None) == sorted,
        page_after(sorted, Some(sorted[i].key())) == sorted.skip(i + 1),
        sorted.take(i + 1) + page_after(sorted, Some(sorted[i].key())) == sorted,
        page_after(sorted, Some(sorted.last().key())) == Seq::<R>::empty(),
{
    let k = sorted[i].key();
    assert(first_with_key(sorted, k, i)) by {
        assert forall|j: int| 0 <= j < i implies sorted[j].key() != k by {}
    }
    lemma_first_with_key_unique(sorted, k, i);
    assert(sorted.take(i + 1) + sorted.skip(i + 1) =~= sorted);
    let n = sorted.len() - 1;
    assert(first_with_key(sorted, sorted[n].key(), n)) by {
        assert forall|j: int| 0 <= j < n implies sorted[j].key() != sorted[n].key() by {}
    }
    lemma_first_with_key_unique(sorted, sorted[n].key(), n);
    assert(sorted.skip(n + 1) =~= Seq::<R>::empty());
}

/// Paging by the last key visits every live row once. Where no two rows of
/// a scan share a key, the page without a cursor is the whole listing; the
/// page behind any of its rows is what follows that row, so that the rows
/// up to the cursor and the page behind it make up the listing; and the page
/// behind its last row is empty.
pub proof fn law_paging_is_exhaustive<R: Record>(
    rows: Seq<R>,
    include_flagged: bool,
    first: Seq<R>,
    i: int,
    next: Seq<R>,
)
    requires
        distinct_keys(rows),
        is_page(rows, include_flagged, None, first),
        0 <= i < first.len(),
        is_page(rows, include_flagged, Some(first[i].key()), next),
    ensures
        is_listing(rows, include_flagged, first),
        distinct_keys(first),
        next == first.skip(i + 1),
        first.take(i + 1) + next == first,
        i == first.len() - 1 ==> next.len() == 0,
{
    let a = choose|sorted: Seq<R>| #[trigger]
        is_listing(rows, include_flagged, sorted) && first == page_after(sorted, None);
    let b = choose|sorted: Seq<R>| #[trigger]
        is_listing(rows, include_flagged, sorted) && next == page_after(sorted, Some(first[i].key()));
    lemma_listing_unique(rows, include_flagged, a, b);
    lemma_listing_distinct(rows, include_flagged, first);
    lemma_pagination_exhaustive(first, i);
}

/// A listing is determined by the scan: where no two rows share a key, two
/// listings of the same rows are equal.
pub proof fn lemma_listing_unique<R: Record>(rows: Seq<R>, include_flagged: bool, a: Seq<R>, b: Seq<R>)
    requires
        distinct_keys(rows),
        is_listing(rows, include_flagged, a),
        is_listing(rows, include_flagged, b),
    ensures
        a == b,
{
    lemma_listing_distinct(rows, include_flagged, a);
    lemma_listing_distinct(rows, include_flagged, b);
    lemma_ordered_unique(a, b);
}

/// Two ordered sequences with distinct keys and the same rows are equal.
pub proof fn lemma_ordered_unique<R: Record>(a: Seq<R>, b: Seq<R>)
    requires
        ordered(a),
        ordered(b),
        distinct_keys(a),
        distinct_keys(b),
        a.to_multiset() == b.to_multiset(),
    ensures
        a == b,
    decreases a.len(),
{
    broadcast use vstd::multiset::group_multiset_axioms;
    to_multiset_len(a);
    to_multiset_len(b);
    if a.len() > 0 {
        let x = a[0];
        let y = b[0];
        assert(a.contains(x));
        assert(b.contains(y));
        to_multiset_contains(a, x);
        to_multiset_contains(b, x);
        to_multiset_contains(a, y);
        to_multiset_contains(b, y);
        let p = choose|p: int| 0 <= p < b.len() && b[p] == x;
        let q = choose|q: int| 0 <= q < a.len() && a[q] == y;
        if x != y {
            // x stands in b behind y, and y stands in a behind x
            assert(p > 0 && q > 0);
            assert(!precedes(b[p], b[0]));
            assert(!precedes(a[q], a[0]));
            if x.key() == y.key() {
                assert(a[0].key() != a[q].key());
            }
            lemma_precedes_order(x, y, x);
        }
        assert(x == y);
        to_multiset_remove(a, 0);
        to_multiset_remove(b, 0);
        let ra = a.remove(0);
        let rb = b.remove(0);
        assert forall|i: int, j: int| 0 <= i < j < ra.len() implies !precedes(ra[j], ra[i]) && ra[i].key()
            != ra[j].key() by {
            assert(ra[i] == a[i + 1] && ra[j] == a[j + 1]);
        }
        assert forall|i: int, j: int| 0 <= i < j < rb.len() implies !precedes(rb[j], rb[i]) && rb[i].key()
            != rb[j].key() by {
            assert(rb[i] == b[i + 1] && rb[j] == b[j + 1]);
        }
        lemma_ordered_unique(ra, rb);
        assert(a =~= seq![x] + ra);
        assert(b =~= seq![y] + rb);
    } else {
        assert(a =~= b);
    }
}

} // verus!
