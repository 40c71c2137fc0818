//! The link shortener's endpoints, without the transport: what each of them
//! decides before and after it talks to the table.

use vstd::prelude::*;
use vstd::string::*;
use crate::error::{ApiError, RepoError};
use crate::listing::is_page;
use crate::number::{decimal, format_u64};
use crate::record::Record;
use crate::repository::written;
use crate::shortener::entry::{entry_of, form_error, CreateEntryForm, DisplayableEntry, Entry};
use crate::shortener::queries::{
    create_shortlink_entry, get_shortlink_entry, list_shortlink_entries, put_shortlink_entry,
};
use crate::slack::channel::SlackChannel;
use crate::slack::SlackApiRequest;
use crate::store::{GetOutcome, PutOutcome, PutPlan, ScanOutcome};
use crate::text::owned;
use crate::time::{clock_now, Timestamp};

verus! {

/// Whether `e` reports the repository failure `err`, in the shortener's
/// words: a conflict is a short name that already exists.
pub open spec fn reports(e: ApiError, err: RepoError) -> bool {
    e.status_code == err.status() && e.message@ == (match err {
        RepoError::Conflict => "Shortname already exists"@,
        _ => err.text(),
    })
}

/// Turns a failure of the repository into what the client is told.
pub fn refuse(err: RepoError) -> (e: ApiError)
    ensures
        reports(e, err),
{
    match err {
        RepoError::Conflict => ApiError::bad_request("Shortname already exists"),
        _ => ApiError::from_repo(&err),
    }
}

/// Creation, first half: validates the form and, where it is valid, makes
/// the link (created now) and the write that stores it. The write is
/// conditional: a short name that is taken, even by a deleted link, is not
/// given away again.
pub fn create_entry(form: CreateEntryForm) -> (r: Result<PutPlan<Entry>, ApiError>)
    ensures
        match form_error(form) {
            Some(v) => r matches Err(e) && reports(e, RepoError::ValidationFailed(v)),
            None => r matches Ok(plan) && plan.if_absent && plan.item == entry_of(form, plan.item.created_at),
        },
{
    match Entry::try_from(form) {
        Ok(entry) => Ok(create_shortlink_entry(entry)),
        Err(v) => Err(refuse(RepoError::ValidationFailed(v))),
    }
}

/// Creation, second half: reads the table's answer to the write of `entry`.
pub fn entry_created(entry: Entry, outcome: PutOutcome) -> (r: Result<DisplayableEntry, ApiError>)
    ensures
        match outcome {
            PutOutcome::Written => r == Ok::<DisplayableEntry, ApiError>(entry.shown()),
            PutOutcome::ConditionFailed => r matches Err(e) && reports(e, RepoError::Conflict),
            PutOutcome::Fault(m) => r matches Err(e) && reports(e, RepoError::StoreUnavailable(m)),
        },
{
    match written(outcome) {
        Ok(()) => Ok(entry.display()),
        Err(err) => Err(refuse(err)),
    }
}

/// The links of `page` as a response shows them.
pub open spec fn shown_page(page: Seq<Entry>) -> Seq<DisplayableEntry> {
    Seq::new(page.len(), |i: int| page[i].shown())
}

/// Listing: reads the answer to a scan and shows the live links, oldest
/// first.
pub fn list_entries(outcome: ScanOutcome<Entry>) -> (r: Result<Vec<DisplayableEntry>, ApiError>)
    ensures
        match outcome {
            ScanOutcome::Items(rows) => {
                &&& r matches Ok(items)
                &&& items@.len() <= rows@.len()
                &&& exists|page: Seq<Entry>| #[trigger]
                    is_page(rows@, true, None, page) && items@ == shown_page(page)
            },
            ScanOutcome::Fault(m) => r matches Err(e) && reports(e, RepoError::StoreUnavailable(m)),
        },
{
    match list_shortlink_entries(outcome) {
        Ok((_, entries)) => {
            let mut items: Vec<DisplayableEntry> = Vec::new();
            let mut i: usize = 0;
            while i < entries.len()
                invariant
                    i <= entries.len(),
                    items@.len() == i,
                    forall|j: int| 0 <= j < i ==> items@[j] == entries@[j].shown(),
                decreases entries.len() - i,
            {
                items.push(entries[i].display());
                i += 1;
            }
            proof {
                assert(items@ =~= shown_page(entries@));
            }
            Ok(items)
        },
        Err(err) => Err(refuse(err)),
    }
}

/// Deletion, first half, with the instant given: reads the answer to the
/// get and makes the write that stores the link with its tombstone set to
/// `at`.
pub fn delete_entry_at(outcome: GetOutcome<Entry>, at: Timestamp) -> (r: Result<PutPlan<Entry>, ApiError>)
    ensures
        match outcome {
            GetOutcome::Found(x) => r == Ok::<PutPlan<Entry>, ApiError>(
                PutPlan { item: x.tombstoned(at), if_absent: false },
            ),
            GetOutcome::Missing => r matches Err(e) && reports(e, RepoError::NotFound),
            GetOutcome::Fault(m) => r matches Err(e) && reports(e, RepoError::StoreUnavailable(m)),
        },
{
    match get_shortlink_entry(outcome) {
        Ok(entry) => Ok(put_shortlink_entry(entry.tombstone(at))),
        Err(err) => Err(refuse(err)),
    }
}

/// Deletion, first half: as [`delete_entry_at`], at the current time.
pub fn delete_entry(outcome: GetOutcome<Entry>) -> (r: Result<PutPlan<Entry>, ApiError>)
    ensures
        match outcome {
            GetOutcome::Found(x) => {
                &&& r matches Ok(plan)
                &&& !plan.if_absent
                &&& plan.item.deleted_at is Some
                &&& plan.item == x.tombstoned(plan.item.deleted_at.unwrap())
            },
            GetOutcome::Missing => r matches Err(e) && reports(e, RepoError::NotFound),
            GetOutcome::Fault(m) => r matches Err(e) && reports(e, RepoError::StoreUnavailable(m)),
        },
{
    let now = clock_now();
    delete_entry_at(outcome, now)
}

/// Deletion, second half: reads the table's answer to the write of the
/// tombstoned `entry`.
pub fn entry_deleted(entry: Entry, outcome: PutOutcome) -> (r: Result<DisplayableEntry, ApiError>)
    ensures
        match outcome {
            PutOutcome::Written => r == Ok::<DisplayableEntry, ApiError>(entry.shown()),
            PutOutcome::ConditionFailed => r matches Err(e) && reports(e, RepoError::Conflict),
            PutOutcome::Fault(m) => r matches Err(e) && reports(e, RepoError::StoreUnavailable(m)),
        },
{
    match written(outcome) {
        Ok(()) => Ok(entry.display()),
        Err(err) => Err(refuse(err)),
    }
}

/// Statistics, for each link of a run: reads the table's answer to the
/// write that stores the link with its new count. The first link that is
/// not written ends the run.
pub fn stats_entry_written(outcome: PutOutcome) -> (r: Result<(), ApiError>)
    ensures
        match outcome {
            PutOutcome::Written => r == Ok::<(), ApiError>(()),
            PutOutcome::ConditionFailed => r matches Err(e) && reports(e, RepoError::Conflict),
            PutOutcome::Fault(m) => r matches Err(e) && reports(e, RepoError::StoreUnavailable(m)),
        },
{
    match written(outcome) {
        Ok(()) => Ok(()),
        Err(err) => Err(refuse(err)),
    }
}

/// The words that report a statistics run of `n` links.
pub open spec fn stats_notice(n: nat) -> Seq<char> {
    "Updated "@ + decimal(n) + " shortlink entries"@
}

/// Statistics, at the end: the notification that reports a run of `n`
/// links, once all of them are written.
pub fn stats_updated(n: usize) -> (req: SlackApiRequest)
    ensures
        req.text@ == stats_notice(n as nat),
        req.channel == SlackChannel::General,
        req.blocks@.len() == 0,
{
    let mut text = owned("Updated ");
    let count = format_u64(n as u64);
    text.append(count.as_str());
    text.append(" shortlink entries");
    SlackApiRequest { text, channel: SlackChannel::General, blocks: Vec::new() }
}

} // verus!
