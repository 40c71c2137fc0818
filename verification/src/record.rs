//! What every stored record has in common.
//!
//! A record is identified by a key that never changes, carries the instant of
//! its creation, and is soft-deleted by stamping it with the instant of its
//! deletion. The concrete collections (guestbook entries, short links) add
//! their own payload and implement [`Record`].

use vstd::prelude::*;
use crate::time::{Timestamp, ts_lt};

verus! {

pub trait Record: Sized {
    /// The executable form of a key; its view is the key that contracts speak of.
    type Key: View;

    /// The key under which the record is stored.
    spec fn key(&self) -> <Self::Key as View>::V;

    /// When the record was created.
    spec fn created_at(&self) -> Timestamp;

    /// When the record was soft-deleted, if it was.
    spec fn deleted_at(&self) -> Option<Timestamp>;

    /// Whether the record carries the collection's internal flag, which keeps
    /// it out of listings unless the caller asks for flagged records too.
    spec fn flagged(&self) -> bool;

    /// The record with its tombstone set to `at`, and nothing else changed.
    spec fn tombstoned(&self, at: Timestamp) -> Self;

    /// Strict order on keys, used to break ties between records created at
    /// the same instant.
    spec fn key_lt(a: <Self::Key as View>::V, b: <Self::Key as View>::V) -> bool;

    /// `key_lt` is a strict total order.
    proof fn key_order(a: <Self::Key as View>::V, b: <Self::Key as View>::V, c: <Self::Key as View>::V)
        ensures
            !Self::key_lt(a, a),
            Self::key_lt(a, b) && Self::key_lt(b, c) ==> Self::key_lt(a, c),
            a == b || Self::key_lt(a, b) || Self::key_lt(b, a),
    ;

    /// A tombstone touches neither the key nor the creation instant nor the flag.
    proof fn tombstone_keeps_identity(&self, at: Timestamp)
        ensures
            self.tombstoned(at).key() == self.key(),
            self.tombstoned(at).created_at() == self.created_at(),
            self.tombstoned(at).flagged() == self.flagged(),
            self.tombstoned(at).deleted_at() == Some(at),
    ;

    fn created(&self) -> (t: Timestamp)
        ensures
            t == self.created_at(),
    ;

    fn is_deleted(&self) -> (b: bool)
        ensures
            b == self.deleted_at().is_some(),
    ;

    fn is_flagged(&self) -> (b: bool)
        ensures
            b == self.flagged(),
    ;

    fn has_key(&self, key: &Self::Key) -> (b: bool)
        ensures
            b == (self.key() == key@),
    ;

    fn same_key(&self, other: &Self) -> (b: bool)
        ensures
            b == (self.key() == other.key()),
    ;

    fn key_before(&self, other: &Self) -> (b: bool)
        ensures
            b == Self::key_lt(self.key(), other.key()),
    ;

    /// Stamps the record as deleted at `at`. Deleting a record that is
    /// already deleted stamps it again: the last call wins.
    fn tombstone(self, at: Timestamp) -> (r: Self)
        ensures
            r == self.tombstoned(at),
    ;

    /// A copy that is equal to the record in every field.
    fn duplicate(&self) -> (r: Self)
        ensures
            r == *self,
    ;
}

/// The order of listings: by creation instant, ties broken by key.
pub open spec fn precedes<R: Record>(a: R, b: R) -> bool {
    ts_lt(a.created_at(), b.created_at()) || (a.created_at() == b.created_at() && R::key_lt(
        a.key(),
        b.key(),
    ))
}

/// No two rows of `s` share a key.
pub open spec fn distinct_keys<R: Record>(s: Seq<R>) -> bool {
    forall|i: int, j: int| 0 <= i < j < s.len() ==> s[i].key() != s[j].key()
}

/// `s` is in listing order: no row precedes one that stands before it.
pub open spec fn ordered<R: Record>(s: Seq<R>) -> bool {
    forall|i: int, j: int| 0 <= i < j < s.len() ==> !precedes(s[j], s[i])
}

/// `precedes` is irreflexive and transitive, and it decides between any two
/// records with different keys.
pub proof fn lemma_precedes_order<R: Record>(a: R, b: R, c: R)
    ensures
        !precedes(a, a),
        precedes(a, b) ==> !precedes(b, a),
        precedes(a, b) && precedes(b, c) ==> precedes(a, c),
        !precedes(a, b) && !precedes(b, c) ==> !precedes(a, c),
        a.key() != b.key() ==> precedes(a, b) || precedes(b, a),
{
    R::key_order(a.key(), b.key(), a.key());
    R::key_order(a.key(), b.key(), c.key());
    R::key_order(b.key(), a.key(), c.key());
    R::key_order(a.key(), c.key(), b.key());
    R::key_order(c.key(), b.key(), a.key());
    R::key_order(b.key(), c.key(), a.key());
    R::key_order(c.key(), a.key(), b.key());
}

/// Compares two records in listing order.
pub fn comes_before<R: Record>(a: &R, b: &R) -> (r: bool)
    ensures
        r == precedes(*a, *b),
{
    let ta = a.created();
    let tb = b.created();
    if ta.before(&tb) {
        true
    } else if tb.before(&ta) {
        false
    } else {
        a.key_before(b)
    }
}

} // verus!
