//! What the link shortener asks of its table, `jil-link-shortener`, and how
//! it reads the answers.

use vstd::prelude::*;
use crate::error::RepoError;
use crate::item::{text_attr, text_attribute, Attribute, Field};
use crate::listing::is_page;
use crate::record::ordered;
use crate::repository::{create_if_absent, found, listed, upsert};
use crate::shortener::entry::Entry;
use crate::store::{GetOutcome, PutPlan, ScanOutcome};
use crate::text::owned;

verus! {

/// The name of the table that holds the short links.
pub fn table_name() -> (name: String)
    ensures
        name@ == "jil-link-shortener"@,
{
    owned("jil-link-shortener")
}

/// The attribute that links are keyed by.
pub fn key_field() -> (f: Field)
    ensures
        f == Field::Shortname,
{
    Field::Shortname
}

/// The key attribute of the link with the given short name, as a get asks
/// for it.
pub fn entry_key(shortname: &str) -> (a: Attribute)
    ensures
        a@ == text_attr(Field::Shortname, shortname@),
{
    text_attribute(Field::Shortname, owned(shortname))
}

/// The write that creates a short link: it must fail where the short name
/// is taken, by a live or by a tombstoned link.
pub fn create_shortlink_entry(entry: Entry) -> (plan: PutPlan<Entry>)
    ensures
        plan == (PutPlan { item: entry, if_absent: true }),
{
    create_if_absent(entry)
}

/// The write that stores a short link over whatever its short name held:
/// used to set a tombstone and to record click counts.
pub fn put_shortlink_entry(entry: Entry) -> (plan: PutPlan<Entry>)
    ensures
        plan == (PutPlan { item: entry, if_absent: false }),
{
    upsert(entry)
}

/// Reads the answer to a get of one short name.
pub fn get_shortlink_entry(outcome: GetOutcome<Entry>) -> (r: Result<Entry, RepoError>)
    ensures
        match outcome {
            GetOutcome::Found(x) => r == Ok::<Entry, RepoError>(x),
            GetOutcome::Missing => r == Err::<Entry, RepoError>(RepoError::NotFound),
            GetOutcome::Fault(m) => r == Err::<Entry, RepoError>(RepoError::StoreUnavailable(m)),
        },
{
    found(outcome)
}

/// Reads the answer to a scan and lists the live links, oldest first. The
/// count that comes with them is that of all links, deleted ones included.
pub fn list_shortlink_entries(outcome: ScanOutcome<Entry>) -> (r: Result<(usize, Vec<Entry>), RepoError>)
    ensures
        match outcome {
            ScanOutcome::Items(rows) => {
                &&& r matches Ok(out)
                &&& out.0 == rows@.len()
                &&& out.1@.len() <= out.0
                &&& is_page(rows@, true, None, out.1@)
                &&& ordered(out.1@)
                &&& forall|i: int| 0 <= i < out.1@.len() ==> (#[trigger] out.1@[i]).deleted_at is None
                &&& forall|i: int| 0 <= i < out.1@.len() ==> rows@.contains(#[trigger] out.1@[i])
            },
            ScanOutcome::Fault(m) => r == Err::<(usize, Vec<Entry>), RepoError>(RepoError::StoreUnavailable(m)),
        },
{
    listed(outcome, None, true)
}

} // verus!
