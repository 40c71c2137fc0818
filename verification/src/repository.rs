//! The entry repository: get, put, create-if-absent, soft delete and list,
//! for one collection.
//!
//! Every operation is a question to the backing table and a reading of its
//! answer. The functions at the top build the question ([`upsert`],
//! [`create_if_absent`], [`soft_delete`]) and read the answer ([`found`],
//! [`written`], [`listed`]); whoever talks to the remote table calls them
//! around the remote call. [`Repository`] puts the two halves together over
//! a [`MemoryTable`]. The laws at the end say what the operations guarantee
//! of any table that works.
//!
//! Creation never reads before it writes: that a key is free is checked by
//! the table itself, in the same step as the write. Two creations of one key
//! that race are decided by the table, and exactly one of them wins.

use vstd::prelude::*;
use crate::error::RepoError;
use crate::listing::{cursor_key, is_page, list_undeleted, listed as in_listing};
use crate::record::{distinct_keys, ordered, Record};
use crate::store::{
    find, holds_key, lemma_holds_key, lemma_put_rows, put_effect, put_rows, put_succeeds, GetOutcome,
    MemoryTable, PutOutcome, PutPlan, ScanOutcome,
};
use crate::time::Timestamp;

verus! {

/// The write that stores `record` whether or not its key is taken.
pub fn upsert<R: Record>(record: R) -> (plan: PutPlan<R>)
    ensures
        plan == (PutPlan { item: record, if_absent: false }),
{
    PutPlan { item: record, if_absent: false }
}

/// The write that stores `record` only if its key is free.
pub fn create_if_absent<R: Record>(record: R) -> (plan: PutPlan<R>)
    ensures
        plan == (PutPlan { item: record, if_absent: true }),
{
    PutPlan { item: record, if_absent: true }
}

/// The write that soft-deletes `record` at the instant `at`: an upsert of
/// the record with its tombstone set.
pub fn soft_delete<R: Record>(record: R, at: Timestamp) -> (plan: PutPlan<R>)
    ensures
        plan == (PutPlan { item: record.tombstoned(at), if_absent: false }),
{
    PutPlan { item: record.tombstone(at), if_absent: false }
}

/// Reads the answer to a get: a miss is `NotFound`, whether or not the key
/// was ever used; a tombstoned record is found like any other.
pub fn found<R: Record>(outcome: GetOutcome<R>) -> (r: Result<R, RepoError>)
    ensures
        match outcome {
            GetOutcome::Found(x) => r == Ok::<R, RepoError>(x),
            GetOutcome::Missing => r == Err::<R, RepoError>(RepoError::NotFound),
            GetOutcome::Fault(m) => r == Err::<R, RepoError>(RepoError::StoreUnavailable(m)),
        },
{
    match outcome {
        GetOutcome::Found(x) => Ok(x),
        GetOutcome::Missing => Err(RepoError::NotFound),
        GetOutcome::Fault(m) => Err(RepoError::StoreUnavailable(m)),
    }
}

/// Reads the answer to a write: a failed condition is a `Conflict`.
pub fn written(outcome: PutOutcome) -> (r: Result<(), RepoError>)
    ensures
        match outcome {
            PutOutcome::Written => r == Ok::<(), RepoError>(()),
            PutOutcome::ConditionFailed => r == Err::<(), RepoError>(RepoError::Conflict),
            PutOutcome::Fault(m) => r == Err::<(), RepoError>(RepoError::StoreUnavailable(m)),
        },
{
    match outcome {
        PutOutcome::Written => Ok(()),
        PutOutcome::ConditionFailed => Err(RepoError::Conflict),
        PutOutcome::Fault(m) => Err(RepoError::StoreUnavailable(m)),
    }
}

/// Reads the answer to a scan and lists its live rows.
///
/// On success the first component is the size of the scan, tombstoned rows
/// included, and the second the page of the listing that follows `after`.
pub fn listed<R: Record>(outcome: ScanOutcome<R>, after: Option<&R::Key>, include_flagged: bool) -> (r: Result<
    (usize, Vec<R>),
    RepoError,
>)
    ensures
        match outcome {
            ScanOutcome::Items(rows) => {
                &&& r matches Ok(out)
                &&& out.0 == rows@.len()
                &&& out.1@.len() <= out.0
                &&& is_page(rows@, include_flagged, cursor_key(after), out.1@)
                &&& ordered(out.1@)
                &&& forall|i: int| 0 <= i < out.1@.len() ==> in_listing(#[trigger] out.1@[i], include_flagged)
                &&& forall|i: int| 0 <= i < out.1@.len() ==> rows@.contains(#[trigger] out.1@[i])
            },
            ScanOutcome::Fault(m) => r == Err::<(usize, Vec<R>), RepoError>(RepoError::StoreUnavailable(m)),
        },
{
    match outcome {
        ScanOutcome::Items(rows) => Ok(list_undeleted(&rows, after, include_flagged)),
        ScanOutcome::Fault(m) => Err(RepoError::StoreUnavailable(m)),
    }
}

/// A repository over a table in memory.
pub struct Repository<R: Record> {
    table: MemoryTable<R>,
}

impl<R: Record> Repository<R> {
    /// The rows of the collection, in scan order.
    pub closed spec fn view(&self) -> Seq<R> {
        self.table@
    }

    pub fn new() -> (repo: Repository<R>)
        ensures
            repo@ == Seq::<R>::empty(),
    {
        Repository { table: MemoryTable::new() }
    }

    /// Reads the record under `key`, tombstoned or not.
    pub fn get(&self, key: &R::Key) -> (r: Result<R, RepoError>)
        ensures
            match find(self@, key@) {
                Some(x) => r == Ok::<R, RepoError>(x),
                None => r == Err::<R, RepoError>(RepoError::NotFound),
            },
    {
        found(self.table.get(key))
    }

    /// Stores `record`, replacing what was stored under its key.
    pub fn put(&mut self, record: R) -> (r: Result<(), RepoError>)
        ensures
            distinct_keys(final(self)@),
            r == Ok::<(), RepoError>(()),
            final(self)@ == put_rows(old(self)@, record),
            find(final(self)@, record.key()) == Some(record),
    {
        proof {
            use_type_invariant(&self.table);
            lemma_put_rows(self@, record, record.key());
        }
        written(self.table.put(upsert(record)))
    }

    /// Stores `record` if its key is free, and fails with `Conflict`,
    /// changing nothing, if a live or tombstoned record holds the key.
    pub fn create_if_absent(&mut self, record: R) -> (r: Result<(), RepoError>)
        ensures
            distinct_keys(final(self)@),
            holds_key(old(self)@, record.key()) ==> r == Err::<(), RepoError>(RepoError::Conflict)
                && final(self)@ == old(self)@ && find(final(self)@, record.key()) is Some,
            !holds_key(old(self)@, record.key()) ==> r == Ok::<(), RepoError>(())
                && final(self)@ == old(self)@.push(record)
                && find(final(self)@, record.key()) == Some(record),
    {
        proof {
            use_type_invariant(&self.table);
            lemma_put_rows(self@, record, record.key());
            lemma_holds_key(self@, record.key());
        }
        written(self.table.put(create_if_absent(record)))
    }

    /// Soft-deletes the record under `key` at the instant `at` and returns
    /// it as it is stored afterwards. A record that is already deleted is
    /// stamped again.
    pub fn delete(&mut self, key: &R::Key, at: Timestamp) -> (r: Result<R, RepoError>)
        ensures
            distinct_keys(final(self)@),
            match find(old(self)@, key@) {
                Some(x) => {
                    &&& r == Ok::<R, RepoError>(x.tombstoned(at))
                    &&& final(self)@ == put_rows(old(self)@, x.tombstoned(at))
                    &&& find(final(self)@, key@) == Some(x.tombstoned(at))
                },
                None => r == Err::<R, RepoError>(RepoError::NotFound) && final(self)@ == old(self)@,
            },
    {
        proof {
            use_type_invariant(&self.table);
        }
        match found(self.table.get(key)) {
            Ok(record) => {
                let stamped = record.tombstone(at);
                let copy = stamped.duplicate();
                proof {
                    use_type_invariant(&self.table);
                    lemma_holds_key(self@, key@);
                    record.tombstone_keeps_identity(at);
                    lemma_put_rows(self@, stamped, key@);
                }
                match written(self.table.put(upsert(stamped))) {
                    Ok(()) => Ok(copy),
                    Err(e) => Err(e),
                }
            },
            Err(e) => Err(e),
        }
    }

    /// Lists the live records: see [`listed`].
    pub fn list_undeleted(&self, after: Option<&R::Key>, include_flagged: bool) -> (r: Result<
        (usize, Vec<R>),
        RepoError,
    >)
        ensures
            distinct_keys(self@),
            r matches Ok(out) && {
                &&& out.0 == self@.len()
                &&& out.1@.len() <= out.0
                &&& is_page(self@, include_flagged, cursor_key(after), out.1@)
                &&& ordered(out.1@)
                &&& forall|i: int| 0 <= i < out.1@.len() ==> in_listing(#[trigger] out.1@[i], include_flagged)
                &&& forall|i: int| 0 <= i < out.1@.len() ==> self@.contains(#[trigger] out.1@[i])
            },
    {
        listed(self.table.scan(), after, include_flagged)
    }
}

/// A record that was created can be read back. Where the key of `record` is
/// free, a working table carries out the conditional write, and a get of the
/// key then returns the record as it was handed in.
pub proof fn law_create_then_get<R: Record>(t: Seq<R>, record: R)
    requires
        distinct_keys(t),
        !holds_key(t, record.key()),
    ensures
        put_succeeds(t, PutPlan { item: record, if_absent: true }),
        find(put_effect(t, PutPlan { item: record, if_absent: true }), record.key()) == Some(record),
        distinct_keys(put_effect(t, PutPlan { item: record, if_absent: true })),
{
    lemma_put_rows(t, record, record.key());
}

/// Of two creations of one key, exactly one wins. Whichever of `first` and
/// `second` the table serves first is written; the other fails its
/// condition and changes nothing, so the key holds one record, the winner's.
pub proof fn law_one_creation_wins<R: Record>(t: Seq<R>, first: R, second: R)
    requires
        distinct_keys(t),
        first.key() == second.key(),
        !holds_key(t, first.key()),
    ensures
        ({
            let served = put_effect(t, PutPlan { item: first, if_absent: true });
            &&& put_succeeds(t, PutPlan { item: first, if_absent: true })
            &&& !put_succeeds(served, PutPlan { item: second, if_absent: true })
            &&& put_effect(served, PutPlan { item: second, if_absent: true }) == served
            &&& find(served, first.key()) == Some(first)
            &&& distinct_keys(served)
        }),
{
    let served = put_effect(t, PutPlan { item: first, if_absent: true });
    lemma_put_rows(t, first, first.key());
    lemma_holds_key(served, first.key());
}

/// A creation never overwrites: where the key is taken, by a live or by a
/// tombstoned record, the conditional write fails and the table stays as it
/// was.
pub proof fn law_create_keeps_existing<R: Record>(t: Seq<R>, record: R)
    requires
        holds_key(t, record.key()),
    ensures
        !put_succeeds(t, PutPlan { item: record, if_absent: true }),
        put_effect(t, PutPlan { item: record, if_absent: true }) == t,
{
}

/// Soft deletion can be repeated. After a record was deleted at `at1` and
/// again at `at2`, both writes having been carried out, the stored record
/// bears the second instant, and it is the record that was stored in everything but
/// its tombstone.
pub proof fn law_delete_twice<R: Record>(t: Seq<R>, record: R, at1: Timestamp, at2: Timestamp)
    requires
        distinct_keys(t),
        find(t, record.key()) == Some(record),
    ensures
        ({
            let once = record.tombstoned(at1);
            let twice = once.tombstoned(at2);
            let t1 = put_effect(t, PutPlan { item: once, if_absent: false });
            let t2 = put_effect(t1, PutPlan { item: twice, if_absent: false });
            &&& put_succeeds(t, PutPlan { item: once, if_absent: false })
            &&& find(t1, record.key()) == Some(once)
            &&& put_succeeds(t1, PutPlan { item: twice, if_absent: false })
            &&& find(t2, record.key()) == Some(twice)
            &&& twice.deleted_at() == Some(at2)
            &&& twice.key() == record.key()
            &&& twice.created_at() == record.created_at()
            &&& t2.len() == t.len()
        }),
{
    let once = record.tombstoned(at1);
    let twice = once.tombstoned(at2);
    record.tombstone_keeps_identity(at1);
    once.tombstone_keeps_identity(at2);
    let t1 = put_rows(t, once);
    lemma_put_rows(t, once, record.key());
    lemma_put_rows(t1, twice, record.key());
    lemma_holds_key(t, record.key());
    lemma_holds_key(t1, record.key());
}

/// A tombstone is never cleared: whatever is written by a soft deletion is
/// deleted, and deleting it again leaves it deleted.
pub proof fn law_tombstone_stays<R: Record>(record: R, at: Timestamp)
    ensures
        record.tombstoned(at).deleted_at() is Some,
        record.tombstoned(at).key() == record.key(),
        record.tombstoned(at).created_at() == record.created_at(),
{
    record.tombstone_keeps_identity(at);
}

} // verus!
