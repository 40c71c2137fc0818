//! The guestbook's endpoints, without the transport: what each of them
//! decides before and after it talks to the table, and what it discloses.
//!
//! An endpoint that writes comes as two functions. The first turns the
//! request (and, for a deletion, the record that was read) into the write to
//! carry out; the second turns the table's answer into the response.

use vstd::prelude::*;
use vstd::string::*;
use crate::error::{ApiError, RepoError};
use crate::guestbook::entry::{form_error, entry_of, DisplayableEntry, Entry, GuestbookForm, SerOptions};
use crate::guestbook::queries::{
    create_guestbook_entry, get_single_entry, get_undeleted_entries, put_guestbook_entry,
};
use crate::ident::is_random_id;
use crate::listing::is_page;
use crate::record::{distinct_keys, Record};
use crate::repository::{law_create_then_get, written};
use crate::store::{find, holds_key, put_effect, put_succeeds, GetOutcome, PutOutcome, PutPlan, ScanOutcome};
use crate::time::{clock_now, Timestamp};

verus! {

/// What a response is for. It decides which conditional fields are shown.
#[derive(Clone, Copy, Debug, PartialEq, Eq, Structural)]
pub enum Purpose {
    /// The public list of entries.
    Listing,
    /// The answer to the visitor who left the entry.
    Creation,
    /// One entry, fetched by its key.
    Retrieval,
    /// The confirmation of a deletion, to the administrator.
    Deletion,
}

/// The disclosure rule. A listing shows no conditional field. The answer to
/// a creation shows the trial flag of a trial entry. A retrieval and a
/// deletion show both the deletion instant and the trial flag.
pub open spec fn policy(purpose: Purpose, qa: bool) -> SerOptions {
    match purpose {
        Purpose::Listing => SerOptions { deleted_at: false, qa: false },
        Purpose::Creation => SerOptions { deleted_at: false, qa },
        Purpose::Retrieval => SerOptions { deleted_at: true, qa: true },
        Purpose::Deletion => SerOptions { deleted_at: true, qa: true },
    }
}

/// What a response for `purpose` shows of an entry.
pub open spec fn disclosed(entry: Entry, purpose: Purpose) -> DisplayableEntry {
    (Entry { ser_options: policy(purpose, entry.qa), ..entry }).shown()
}

/// Whether `e` reports the repository failure `err`.
pub open spec fn reports(e: ApiError, err: RepoError) -> bool {
    e.status_code == err.status() && e.message@ == err.text()
}

/// The disclosure rule holds of every entry. A conditional field is shown
/// exactly where its option is set, and then with the value that the entry
/// holds. The email address is never shown: what is shown of an entry does
/// not depend on it, whatever the options.
pub proof fn law_disclosure(entry: Entry, email: Option<String>)
    ensures
        entry.shown().deleted_at is Some <==> entry.ser_options.deleted_at,
        entry.shown().qa is Some <==> entry.ser_options.qa,
        entry.ser_options.deleted_at ==> entry.shown().deleted_at == Some(entry.deleted_at),
        entry.ser_options.qa ==> entry.shown().qa == Some(entry.qa),
        (Entry { email, ..entry }).shown() == entry.shown(),
        forall|purpose: Purpose| #[trigger] disclosed(Entry { email, ..entry }, purpose) == disclosed(entry, purpose),
{
}

/// The two option names stand for different options: switching one on
/// leaves the other as it was.
pub proof fn lemma_options_independent(o: SerOptions)
    ensures
        o.with("serialize_deleted_at"@) == (SerOptions { deleted_at: true, qa: o.qa }),
        o.with("serialize_qa"@) == (SerOptions { deleted_at: o.deleted_at, qa: true }),
{
    reveal_strlit("serialize_deleted_at");
    reveal_strlit("serialize_qa");
    assert("serialize_deleted_at"@.len() != "serialize_qa"@.len());
}

/// Sets an entry's response options for `purpose` and builds what the
/// response shows.
pub fn disclose(entry: Entry, purpose: Purpose) -> (d: DisplayableEntry)
    ensures
        d == disclosed(entry, purpose),
{
    let mut entry = entry;
    entry.ser_options = SerOptions { deleted_at: false, qa: false };
    proof {
        lemma_options_independent(entry.ser_options);
        lemma_options_independent(entry.ser_options.with("serialize_deleted_at"@));
    }
    match purpose {
        Purpose::Listing => {},
        Purpose::Creation => {
            if entry.qa {
                entry.push_ser_option("serialize_qa");
            }
        },
        Purpose::Retrieval => {
            entry.push_ser_option("serialize_deleted_at");
            entry.push_ser_option("serialize_qa");
        },
        Purpose::Deletion => {
            entry.push_ser_option("serialize_deleted_at");
            entry.push_ser_option("serialize_qa");
        },
    }
    entry.display()
}

/// What the creation of an entry answers with.
#[derive(Debug, PartialEq, Eq)]
pub struct Created {
    /// The new entry, as the visitor sees it.
    pub entry: DisplayableEntry,
    /// Whether the site that prints the guestbook is to be rebuilt: it is,
    /// unless the entry is a trial.
    pub redeploy: bool,
}

/// A page of the guestbook.
#[derive(Debug, PartialEq, Eq)]
pub struct GuestbookListResponse {
    pub items: Vec<DisplayableEntry>,
    /// The number of items on the page.
    pub count: usize,
    /// The number of entries in the table, deleted and trial ones included.
    pub total_count: usize,
}

/// The entries of `page` as a listing shows them, in the same order, or in
/// the opposite order where the newest is wanted first.
pub open spec fn shown_page(page: Seq<Entry>, newest_first: bool) -> Seq<DisplayableEntry> {
    Seq::new(
        page.len(),
        |i: int|
            if newest_first {
                disclosed(page[page.len() - 1 - i], Purpose::Listing)
            } else {
                disclosed(page[i], Purpose::Listing)
            },
    )
}

/// A valid submission can be read back. Where the form passes validation
/// and the key is free, a working table carries out the creation, and a get
/// of the key returns an entry that is live and holds what the visitor
/// submitted.
pub proof fn law_submission_is_read_back(t: Seq<Entry>, form: GuestbookForm, id: u128, at: Timestamp)
    requires
        form_error(form) is None,
        distinct_keys(t),
        !holds_key(t, id),
    ensures
        ({
            let plan = PutPlan { item: entry_of(form, id, at), if_absent: true };
            &&& put_succeeds(t, plan)
            &&& find(put_effect(t, plan), id) matches Some(e) && {
                &&& e.deleted_at is None
                &&& e.name == form.name
                &&& e.message == form.message
                &&& e.email == form.email
                &&& e.url == form.url
                &&& e.qa == form.qa
                &&& e.created_at == at
            }
        }),
{
    law_create_then_get(t, entry_of(form, id, at));
}

/// Turns a failure of the repository into what the client is told.
pub fn refuse(err: RepoError) -> (e: ApiError)
    ensures
        reports(e, err),
{
    ApiError::from_repo(&err)
}

/// Creation, first half: validates the form and, where it is valid, makes
/// the entry (with a fresh key, created now) and the write that stores it.
pub fn new_guestbook_entry(form: GuestbookForm) -> (r: Result<PutPlan<Entry>, ApiError>)
    ensures
        match form_error(form) {
            Some(v) => r matches Err(e) && reports(e, RepoError::ValidationFailed(v)),
            None => {
                &&& r matches Ok(plan)
                &&& plan.if_absent
                &&& plan.item == entry_of(form, plan.item.id, plan.item.created_at)
                &&& is_random_id(plan.item.id)
            },
        },
{
    match Entry::try_from(form) {
        Ok(entry) => Ok(create_guestbook_entry(entry)),
        Err(v) => Err(refuse(RepoError::ValidationFailed(v))),
    }
}

/// Creation, second half: reads the table's answer to the write of `entry`.
pub fn guestbook_entry_created(entry: Entry, outcome: PutOutcome) -> (r: Result<Created, ApiError>)
    ensures
        match outcome {
            PutOutcome::Written => r == Ok::<Created, ApiError>(
                Created { entry: disclosed(entry, Purpose::Creation), redeploy: !entry.qa },
            ),
            PutOutcome::ConditionFailed => r matches Err(e) && reports(e, RepoError::Conflict),
            PutOutcome::Fault(m) => r matches Err(e) && reports(e, RepoError::StoreUnavailable(m)),
        },
{
    match written(outcome) {
        Ok(()) => {
            let redeploy = !entry.qa;
            Ok(Created { entry: disclose(entry, Purpose::Creation), redeploy })
        },
        Err(err) => Err(refuse(err)),
    }
}

/// Listing: reads the answer to a scan and builds the page that follows
/// `after`, with trial entries only where `qa` is set, and with the newest
/// entry first where `newest_first` is set.
pub fn list_guestbook_entries(
    outcome: ScanOutcome<Entry>,
    after: Option<u128>,
    qa: bool,
    newest_first: bool,
) -> (r: Result<GuestbookListResponse, ApiError>)
    ensures
        match outcome {
            ScanOutcome::Items(rows) => {
                &&& r matches Ok(resp)
                &&& resp.total_count == rows@.len()
                &&& resp.count == resp.items@.len()
                &&& resp.count <= resp.total_count
                &&& exists|page: Seq<Entry>| #[trigger]
                    is_page(rows@, qa, after, page) && resp.items@ == shown_page(page, newest_first)
                &&& forall|i: int| 0 <= i < resp.items@.len() ==> (#[trigger] resp.items@[i]).deleted_at is None
                &&& forall|i: int| 0 <= i < resp.items@.len() ==> (#[trigger] resp.items@[i]).qa is None
            },
            ScanOutcome::Fault(m) => r matches Err(e) && reports(e, RepoError::StoreUnavailable(m)),
        },
{
    match get_undeleted_entries(outcome, after, qa) {
        Ok((total_count, entries)) => {
            let mut entries = entries;
            let ghost page = entries@;
            let count = entries.len();
            let mut items: Vec<DisplayableEntry> = Vec::new();
            if newest_first {
                while entries.len() > 0
                    invariant
                        entries@ == page.take(entries@.len() as int),
                        entries@.len() <= page.len(),
                        items@.len() == page.len() - entries@.len(),
                        forall|i: int|
                            0 <= i < items@.len() ==> items@[i] == disclosed(
                                page[page.len() - 1 - i],
                                Purpose::Listing,
                            ),
                    decreases entries.len(),
                {
                    let ghost n = entries@.len();
                    let entry = entries.pop().unwrap();
                    assert(entry == page[n - 1]);
                    assert(entries@ =~= page.take(n - 1));
                    items.push(disclose(entry, Purpose::Listing));
                }
            } else {
                let mut i: usize = 0;
                while i < entries.len()
                    invariant
                        entries@ == page,
                        i <= page.len(),
                        items@.len() == i,
                        forall|j: int| 0 <= j < i ==> items@[j] == disclosed(page[j], Purpose::Listing),
                    decreases entries.len() - i,
                {
                    items.push(disclose(entries[i].duplicate(), Purpose::Listing));
                    i += 1;
                }
            }
            proof {
                assert(items@ =~= shown_page(page, newest_first));
            }
            Ok(GuestbookListResponse { items, count, total_count })
        },
        Err(err) => Err(refuse(err)),
    }
}

/// Retrieval: reads the answer to a get. A soft-deleted entry is returned
/// like a live one, with its deletion instant shown.
pub fn get_guestbook_entry(outcome: GetOutcome<Entry>) -> (r: Result<DisplayableEntry, ApiError>)
    ensures
        match outcome {
            GetOutcome::Found(x) => r == Ok::<DisplayableEntry, ApiError>(disclosed(x, Purpose::Retrieval)),
            GetOutcome::Missing => r matches Err(e) && reports(e, RepoError::NotFound),
            GetOutcome::Fault(m) => r matches Err(e) && reports(e, RepoError::StoreUnavailable(m)),
        },
{
    match get_single_entry(outcome) {
        Ok(entry) => Ok(disclose(entry, Purpose::Retrieval)),
        Err(err) => Err(refuse(err)),
    }
}

/// Deletion, first half, with the instant given: reads the answer to the
/// get and makes the write that stores the entry with its tombstone set to
/// `at`. An entry that is already deleted is stamped again.
pub fn delete_guestbook_entry_at(outcome: GetOutcome<Entry>, at: Timestamp) -> (r: Result<PutPlan<Entry>, ApiError>)
    ensures
        match outcome {
            GetOutcome::Found(x) => r == Ok::<PutPlan<Entry>, ApiError>(
                PutPlan { item: x.tombstoned(at), if_absent: false },
            ),
            GetOutcome::Missing => r matches Err(e) && reports(e, RepoError::NotFound),
            GetOutcome::Fault(m) => r matches Err(e) && reports(e, RepoError::StoreUnavailable(m)),
        },
{
    match get_single_entry(outcome) {
        Ok(entry) => Ok(put_guestbook_entry(entry.tombstone(at))),
        Err(err) => Err(refuse(err)),
    }
}

/// Deletion, first half: as [`delete_guestbook_entry_at`], at the current
/// time.
pub fn delete_guestbook_entry(outcome: GetOutcome<Entry>) -> (r: Result<PutPlan<Entry>, ApiError>)
    ensures
        match outcome {
            GetOutcome::Found(x) => {
                &&& r matches Ok(plan)
                &&& !plan.if_absent
                &&& plan.item.deleted_at is Some
                &&& plan.item == x.tombstoned(plan.item.deleted_at.unwrap())
            },
            GetOutcome::Missing => r matches Err(e) && reports(e, RepoError::NotFound),
            GetOutcome::Fault(m) => r matches Err(e) && reports(e, RepoError::StoreUnavailable(m)),
        },
{
    let now = clock_now();
    delete_guestbook_entry_at(outcome, now)
}

/// Deletion, second half: reads the table's answer to the write of the
/// tombstoned `entry` and confirms with the entry as it is stored now.
pub fn guestbook_entry_deleted(entry: Entry, outcome: PutOutcome) -> (r: Result<DisplayableEntry, ApiError>)
    ensures
        match outcome {
            PutOutcome::Written => r == Ok::<DisplayableEntry, ApiError>(disclosed(entry, Purpose::Deletion)),
            PutOutcome::ConditionFailed => r matches Err(e) && reports(e, RepoError::Conflict),
            PutOutcome::Fault(m) => r matches Err(e) && reports(e, RepoError::StoreUnavailable(m)),
        },
{
    match written(outcome) {
        Ok(()) => Ok(disclose(entry, Purpose::Deletion)),
        Err(err) => Err(refuse(err)),
    }
}

} // verus!
