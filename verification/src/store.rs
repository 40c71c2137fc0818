//! The backing table, as the repository sees it.
//!
//! The repository needs three things of the remote table: read the item
//! under a key, write an item (always, or only if its key is free), and scan
//! all items. This module fixes what is asked ([`PutPlan`]), what can come
//! back ([`GetOutcome`], [`PutOutcome`], [`ScanOutcome`]), and what a table
//! that works does with it: the functions [`find`] and [`put_effect`] over
//! the rows of the table. [`MemoryTable`] is such a table, held in memory.

use vstd::prelude::*;
use crate::listing::{cursor_index, first_with_key, lemma_first_with_key_unique};
use crate::record::{distinct_keys, Record};

verus! {

/// A write that the repository asks for.
#[derive(Debug, PartialEq, Eq)]
pub struct PutPlan<R> {
    /// The item to write.
    pub item: R,
    /// Whether the write must fail, and change nothing, where the table
    /// already holds an item under the same key.
    pub if_absent: bool,
}

/// What a read of one key came to.
#[derive(Debug, PartialEq, Eq)]
pub enum GetOutcome<R> {
    Found(R),
    Missing,
    /// The table could not be asked; the text says why.
    Fault(String),
}

/// What a write came to.
#[derive(Debug, PartialEq, Eq)]
pub enum PutOutcome {
    Written,
    /// The write was conditional and the key was taken. Nothing was written.
    ConditionFailed,
    /// The table could not be asked; the text says why.
    Fault(String),
}

/// What a scan came to.
#[derive(Debug, PartialEq, Eq)]
pub enum ScanOutcome<R> {
    Items(Vec<R>),
    /// The table could not be asked; the text says why.
    Fault(String),
}

/// Whether some row of the table has key `k`.
pub open spec fn holds_key<R: Record>(t: Seq<R>, k: <R::Key as View>::V) -> bool {
    exists|i: int| 0 <= i < t.len() && (#[trigger] t[i]).key() == k
}

/// The row stored under key `k`, if there is one.
pub open spec fn find<R: Record>(t: Seq<R>, k: <R::Key as View>::V) -> Option<R> {
    match cursor_index(t, k) {
        Some(i) => Some(t[i]),
        None => None,
    }
}

/// The table after an unconditional write of `item`: the row under the
/// item's key is replaced; where there is none, the item is added.
pub open spec fn put_rows<R: Record>(t: Seq<R>, item: R) -> Seq<R> {
    match cursor_index(t, item.key()) {
        Some(i) => t.update(i, item),
        None => t.push(item),
    }
}

/// Whether a working table carries out a write.
pub open spec fn put_succeeds<R: Record>(t: Seq<R>, plan: PutPlan<R>) -> bool {
    !(plan.if_absent && holds_key(t, plan.item.key()))
}

/// The table after a working table has answered a write.
pub open spec fn put_effect<R: Record>(t: Seq<R>, plan: PutPlan<R>) -> Seq<R> {
    if put_succeeds(t, plan) {
        put_rows(t, plan.item)
    } else {
        t
    }
}

/// A key is held exactly where a cursor finds it.
pub proof fn lemma_holds_key<R: Record>(t: Seq<R>, k: <R::Key as View>::V)
    ensures
        holds_key(t, k) <==> cursor_index(t, k) is Some,
        holds_key(t, k) <==> find(t, k) is Some,
        cursor_index(t, k) matches Some(i) ==> first_with_key(t, k, i),
        find(t, k) matches Some(r) ==> r.key() == k && t.contains(r),
{
    if holds_key(t, k) {
        let i = choose|i: int| 0 <= i < t.len() && (#[trigger] t[i]).key() == k;
        lemma_least_with_key(t, k, i);
    }
    if cursor_index(t, k) is Some {
        let i = choose|i: int| first_with_key(t, k, i);
        assert(t[i].key() == k);
    }
}

/// Where some row has key `k`, some row is the first to have it.
proof fn lemma_least_with_key<R: Record>(t: Seq<R>, k: <R::Key as View>::V, i: int)
    requires
        0 <= i < t.len(),
        t[i].key() == k,
    ensures
        exists|j: int| first_with_key(t, k, j),
    decreases i,
{
    if exists|j: int| 0 <= j < i && (#[trigger] t[j]).key() == k {
        let j = choose|j: int| 0 <= j < i && (#[trigger] t[j]).key() == k;
        lemma_least_with_key(t, k, j);
    } else {
        assert(first_with_key(t, k, i));
    }
}

/// An unconditional write keeps keys distinct, stores the item under its
/// key, and leaves the rows under all other keys as they were.
pub proof fn lemma_put_rows<R: Record>(t: Seq<R>, item: R, other: <R::Key as View>::V)
    requires
        distinct_keys(t),
    ensures
        distinct_keys(put_rows(t, item)),
        find(put_rows(t, item), item.key()) == Some(item),
        other != item.key() ==> find(put_rows(t, item), other) == find(t, other),
        put_rows(t, item).len() == if holds_key(t, item.key()) {
            t.len()
        } else {
            t.len() + 1
        },
{
    let k = item.key();
    let u = put_rows(t, item);
    lemma_holds_key(t, k);
    lemma_holds_key(t, other);
    lemma_holds_key(u, other);
    let at: int = match cursor_index(t, k) {
        Some(i) => i,
        None => t.len() as int,
    };
    assert(u.len() > at && u[at] == item);
    assert forall|j: int| 0 <= j < u.len() && j != at implies u[j] == t[j] && u[j].key() != k by {
        if cursor_index(t, k) is Some {
            assert(first_with_key(t, k, at));
            if j < at {
                assert(t[j].key() != t[at].key());
            } else {
                assert(t[at].key() != t[j].key());
            }
        } else {
            assert(!holds_key(t, k));
        }
    }
    assert forall|i: int, j: int| 0 <= i < j < u.len() implies u[i].key() != u[j].key() by {
        if i != at && j != at {
            assert(t[i].key() != t[j].key());
        }
    }
    assert(first_with_key(u, k, at));
    lemma_first_with_key_unique(u, k, at);
    if other != k {
        if cursor_index(t, other) is Some {
            let i = cursor_index(t, other).unwrap();
            assert(first_with_key(t, other, i));
            assert(i != at);
            assert(first_with_key(u, other, i)) by {
                assert forall|j: int| 0 <= j < i implies u[j].key() != other by {
                    if j != at {
                        assert(u[j] == t[j]);
                    }
                }
            }
            lemma_first_with_key_unique(u, other, i);
        } else {
            assert(!holds_key(t, other));
            if holds_key(u, other) {
                let j = choose|j: int| 0 <= j < u.len() && (#[trigger] u[j]).key() == other;
                assert(j != at);
                assert(t[j].key() == other);
            }
        }
    }
}

/// A table held in memory, which answers as a working table does.
///
/// No two rows share a key. Rows stand in the order in which their keys were
/// first written, which is the order in which a scan returns them.
pub struct MemoryTable<R: Record> {
    rows: Vec<R>,
}

impl<R: Record> MemoryTable<R> {
    /// The rows of the table, in scan order.
    pub closed spec fn view(&self) -> Seq<R> {
        self.rows@
    }

    /// The table's invariant: keys are unique.
    #[verifier::type_invariant]
    pub open spec fn wf(self) -> bool {
        distinct_keys(self@)
    }

    pub fn new() -> (t: MemoryTable<R>)
        ensures
            t@ == Seq::<R>::empty(),
    {
        MemoryTable { rows: Vec::new() }
    }

    /// The number of rows, tombstoned ones included.
    pub fn len(&self) -> (n: usize)
        ensures
            n == self@.len(),
            distinct_keys(self@),
    {
        proof {
            use_type_invariant(self);
        }
        self.rows.len()
    }

    /// The position of the row under `key`.
    fn position(&self, key: &R::Key) -> (p: Option<usize>)
        ensures
            match p {
                Some(i) => cursor_index(self@, key@) == Some(i as int) && i < self@.len(),
                None => cursor_index(self@, key@) is None,
            },
    {
        let mut i: usize = 0;
        while i < self.rows.len()
            invariant
                i <= self.rows.len(),
                forall|j: int| 0 <= j < i ==> self.rows@[j].key() != key@,
            decreases self.rows.len() - i,
        {
            if self.rows[i].has_key(key) {
                proof {
                    assert(first_with_key(self.rows@, key@, i as int));
                    lemma_first_with_key_unique(self.rows@, key@, i as int);
                }
                return Some(i);
            }
            i += 1;
        }
        proof {
            assert(forall|j: int| !first_with_key(self.rows@, key@, j));
        }
        None
    }

    /// Reads the item under `key`.
    pub fn get(&self, key: &R::Key) -> (out: GetOutcome<R>)
        ensures
            match find(self@, key@) {
                Some(r) => out == GetOutcome::Found(r),
                None => out == GetOutcome::<R>::Missing,
            },
    {
        match self.position(key) {
            Some(i) => GetOutcome::Found(self.rows[i].duplicate()),
            None => GetOutcome::Missing,
        }
    }

    /// Carries out a write.
    pub fn put(&mut self, plan: PutPlan<R>) -> (out: PutOutcome)
        ensures
            final(self)@ == put_effect(old(self)@, plan),
            distinct_keys(old(self)@),
            distinct_keys(final(self)@),
            put_succeeds(old(self)@, plan) ==> out == PutOutcome::Written,
            !put_succeeds(old(self)@, plan) ==> out == PutOutcome::ConditionFailed,
    {
        proof {
            use_type_invariant(&*self);
        }
        let mut at: Option<usize> = None;
        let mut i: usize = 0;
        while i < self.rows.len()
            invariant_except_break
                at is None,
                forall|j: int| 0 <= j < i ==> self.rows@[j].key() != plan.item.key(),
            invariant
                i <= self.rows.len(),
                self.rows@ == old(self).rows@,
            ensures
                self.rows@ == old(self).rows@,
                match at {
                    Some(p) => first_with_key(self.rows@, plan.item.key(), p as int),
                    None => forall|j: int| 0 <= j < self.rows@.len() ==> self.rows@[j].key() != plan.item.key(),
                },
            decreases self.rows.len() - i,
        {
            if self.rows[i].same_key(&plan.item) {
                at = Some(i);
                break;
            }
            i += 1;
        }
        proof {
            lemma_holds_key(self@, plan.item.key());
            lemma_put_rows(self@, plan.item, plan.item.key());
            match at {
                Some(p) => {
                    lemma_first_with_key_unique(self@, plan.item.key(), p as int);
                },
                None => {
                    assert(forall|j: int| !first_with_key(self@, plan.item.key(), j));
                },
            }
        }
        match at {
            Some(p) => {
                if plan.if_absent {
                    PutOutcome::ConditionFailed
                } else {
                    let mut rows = self.take_rows();
                    rows.set(p, plan.item);
                    self.rows = rows;
                    PutOutcome::Written
                }
            },
            None => {
                let mut rows = self.take_rows();
                rows.push(plan.item);
                self.rows = rows;
                PutOutcome::Written
            },
        }
    }

    /// Takes the rows out to work on them, leaving the table empty until
    /// they are put back.
    fn take_rows(&mut self) -> (rows: Vec<R>)
        ensures
            rows@ == old(self)@,
            final(self)@ == Seq::<R>::empty(),
    {
        let mut rows: Vec<R> = Vec::new();
        std::mem::swap(&mut rows, &mut self.rows);
        rows
    }

    /// Returns all rows.
    pub fn scan(&self) -> (out: ScanOutcome<R>)
        ensures
            out matches ScanOutcome::Items(v) && v@ == self@,
            distinct_keys(self@),
    {
        proof {
            use_type_invariant(self);
        }
        let mut v: Vec<R> = Vec::new();
        let mut i: usize = 0;
        while i < self.rows.len()
            invariant
                i <= self.rows.len(),
                v@ == self.rows@.take(i as int),
            decreases self.rows.len() - i,
        {
            v.push(self.rows[i].duplicate());
            proof {
                assert(self.rows@.take(i + 1) =~= self.rows@.take(i as int).push(self.rows@[i as int]));
            }
            i += 1;
        }
        proof {
            assert(self.rows@.take(i as int) =~= self.rows@);
        }
        ScanOutcome::Items(v)
    }
}

} // verus!
