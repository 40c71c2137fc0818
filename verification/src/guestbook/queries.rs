//! What the guestbook asks of its table, `jil-guestbook`, and how it reads
//! the answers.

use vstd::prelude::*;
use crate::error::RepoError;
use crate::guestbook::entry::Entry;
use crate::ident::{hyphenated, id_text};
use crate::item::{text_attr, text_attribute, Attribute, Field};
use crate::listing::{is_page, listed as in_listing};
use crate::record::ordered;
use crate::repository::{create_if_absent, found, listed, upsert};
use crate::store::{GetOutcome, PutPlan, ScanOutcome};
use crate::text::owned;

verus! {

/// The name of the table that holds the guestbook.
pub fn table_name() -> (name: String)
    ensures
        name@ == "jil-guestbook"@,
{
    owned("jil-guestbook")
}

/// The attribute that entries are keyed by.
pub fn key_field() -> (f: Field)
    ensures
        f == Field::Id,
{
    Field::Id
}

/// The key attribute of the entry with the given key, as a get asks for
/// it.
pub fn entry_key(id: u128) -> (a: Attribute)
    ensures
        a@ == text_attr(Field::Id, hyphenated(id)),
{
    text_attribute(Field::Id, id_text(id))
}

/// The write that stores a new entry: it must fail where the key is taken.
pub fn create_guestbook_entry(entry: Entry) -> (plan: PutPlan<Entry>)
    ensures
        plan == (PutPlan { item: entry, if_absent: true }),
{
    create_if_absent(entry)
}

/// The write that stores an entry over whatever its key held: used to set a
/// tombstone.
pub fn put_guestbook_entry(entry: Entry) -> (plan: PutPlan<Entry>)
    ensures
        plan == (PutPlan { item: entry, if_absent: false }),
{
    upsert(entry)
}

/// Reads the answer to a get of one entry. An entry that is soft-deleted is
/// returned like any other: only listings leave deleted entries out.
pub fn get_single_entry(outcome: GetOutcome<Entry>) -> (r: Result<Entry, RepoError>)
    ensures
        match outcome {
            GetOutcome::Found(x) => r == Ok::<Entry, RepoError>(x),
            GetOutcome::Missing => r == Err::<Entry, RepoError>(RepoError::NotFound),
            GetOutcome::Fault(m) => r == Err::<Entry, RepoError>(RepoError::StoreUnavailable(m)),
        },
{
    found(outcome)
}

/// Reads the answer to a scan and lists the live entries, oldest first,
/// that follow the entry named by `after`. Trial entries are listed only
/// where `include_qa` is set. The count that comes with them is that of all
/// entries in the table, deleted and trial ones included.
pub fn get_undeleted_entries(outcome: ScanOutcome<Entry>, after: Option<u128>, include_qa: bool) -> (r: Result<
    (usize, Vec<Entry>),
    RepoError,
>)
    ensures
        match outcome {
            ScanOutcome::Items(rows) => {
                &&& r matches Ok(out)
                &&& out.0 == rows@.len()
                &&& out.1@.len() <= out.0
                &&& is_page(rows@, include_qa, after, out.1@)
                &&& ordered(out.1@)
                &&& forall|i: int| 0 <= i < out.1@.len() ==> (#[trigger] out.1@[i]).deleted_at is None
                &&& forall|i: int| 0 <= i < out.1@.len() ==> include_qa || !(#[trigger] out.1@[i]).qa
                &&& forall|i: int| 0 <= i < out.1@.len() ==> rows@.contains(#[trigger] out.1@[i])
            },
            ScanOutcome::Fault(m) => r == Err::<(usize, Vec<Entry>), RepoError>(RepoError::StoreUnavailable(m)),
        },
{
    let r = match after {
        Some(id) => listed(outcome, Some(&id), include_qa),
        None => listed(outcome, None, include_qa),
    };
    proof {
        if r is Ok {
            let page = r.unwrap().1@;
            assert forall|i: int| 0 <= i < page.len() implies (#[trigger] page[i]).deleted_at is None && (
            include_qa || !page[i].qa) by {
                assert(in_listing(page[i], include_qa));
            }
        }
    }
    r
}

} // verus!
