//! Entries of the first guestbook table.
//!
//! The first table stored everything as text: the key as a UUID, instants
//! as milliseconds since the Unix epoch in decimal digits, and a field that
//! was not set as an empty text. This module reads such an entry into the
//! present form.

use vstd::prelude::*;
use vstd::string::*;
use crate::guestbook::entry::{Entry, SerOptions};
use crate::ident::{parse_id, parsed_id};
use crate::item::{Field, ItemError};
use crate::number::{parse_i64, parsed_i64};
use crate::time::Timestamp;

verus! {

/// An entry as the first table stored it.
#[derive(Clone, Debug, PartialEq, Eq)]
pub struct StringTypedGuestbookEntry {
    pub id: String,
    pub created_at: String,
    pub deleted_at: Option<String>,
    pub url: Option<String>,
    pub email: Option<String>,
    pub message: String,
    pub name: String,
}

/// The instant that a count of milliseconds stands for in the first table:
/// the whole seconds, and the remaining milliseconds taken as they are for
/// the nanoseconds. A negative count that is not a whole number of seconds
/// stands for no instant.
pub open spec fn millis_instant(ms: i64) -> Option<Timestamp> {
    if ms >= 0 || ms % 1000 == 0 {
        Some(Timestamp { secs: (ms / 1000) as i64, nanos: (ms % 1000) as u32 })
    } else {
        None
    }
}

/// The instant that a text of the first table stands for.
pub open spec fn text_instant(text: Seq<char>) -> Option<Timestamp> {
    match parsed_i64(text) {
        Some(ms) => millis_instant(ms),
        None => None,
    }
}

/// A text that is set: an empty text counts as not set.
pub open spec fn set_text(text: Option<String>) -> Option<String> {
    match text {
        Some(s) => if s@.len() == 0 {
            None
        } else {
            Some(s)
        },
        None => None,
    }
}

/// The present form of an entry of the first table, or the field that
/// cannot be read. The key is read first, then the creation instant, then
/// the deletion instant.
pub open spec fn migrated(old_entry: StringTypedGuestbookEntry) -> Result<Entry, ItemError> {
    let id = parsed_id(old_entry.id@);
    let created_at = text_instant(old_entry.created_at@);
    let deleted_at = match old_entry.deleted_at {
        Some(s) => match text_instant(s@) {
            Some(t) => Ok::<Option<Timestamp>, ItemError>(Some(t)),
            None => Err(ItemError::InvalidFormat(Field::DeletedAt)),
        },
        None => Ok(None),
    };
    if id is None {
        Err(ItemError::InvalidFormat(Field::Id))
    } else if created_at is None {
        Err(ItemError::InvalidFormat(Field::CreatedAt))
    } else if deleted_at is Err {
        Err(deleted_at->Err_0)
    } else {
        Ok(
            Entry {
                id: id.unwrap(),
                created_at: created_at.unwrap(),
                deleted_at: deleted_at->Ok_0,
                url: set_text(old_entry.url),
                email: set_text(old_entry.email),
                message: old_entry.message,
                name: old_entry.name,
                qa: false,
                ser_options: SerOptions { deleted_at: false, qa: false },
            },
        )
    }
}

/// Reads a count of milliseconds as an instant.
pub fn instant_of_millis(ms: i64) -> (t: Option<Timestamp>)
    ensures
        t == millis_instant(ms),
{
    if ms >= 0 {
        Some(Timestamp { secs: ms / 1000, nanos: (ms % 1000) as u32 })
    } else {
        // the count is negative: work on its distance from zero
        let distance: u64 = if ms == i64::MIN {
            0x8000_0000_0000_0000
        } else {
            (0 - ms) as u64
        };
        if distance % 1000 == 0 {
            let secs: u64 = distance / 1000;
            assert(ms == -(secs * 1000));
            assert(ms % 1000 == 0 && ms / 1000 == -secs) by (nonlinear_arith)
                requires
                    ms == -(secs * 1000),
            ;
            Some(Timestamp { secs: 0 - (secs as i64), nanos: 0 })
        } else {
            assert(ms % 1000 != 0) by (nonlinear_arith)
                requires
                    ms == -distance,
                    distance % 1000 != 0,
            ;
            None
        }
    }
}

/// Drops a text that is empty.
pub fn keep_set(text: Option<String>) -> (r: Option<String>)
    ensures
        r == set_text(text),
{
    match text {
        Some(s) => {
            if s.as_str().is_empty() {
                None
            } else {
                Some(s)
            }
        },
        None => None,
    }
}

/// Reads a text of the first table as an instant.
fn instant_of_text(text: &str) -> (t: Option<Timestamp>)
    ensures
        t == text_instant(text@),
{
    match parse_i64(text) {
        Some(ms) => instant_of_millis(ms),
        None => None,
    }
}

impl StringTypedGuestbookEntry {
    /// Brings the entry into the present form.
    pub fn into_entry(self) -> (r: Result<Entry, ItemError>)
        ensures
            r == migrated(self),
    {
        let id = match parse_id(self.id.as_str()) {
            Some(id) => id,
            None => {
                return Err(ItemError::InvalidFormat(Field::Id));
            },
        };
        let created_at = match instant_of_text(self.created_at.as_str()) {
            Some(t) => t,
            None => {
                return Err(ItemError::InvalidFormat(Field::CreatedAt));
            },
        };
        let deleted_at = match &self.deleted_at {
            Some(s) => match instant_of_text(s.as_str()) {
                Some(t) => Some(t),
                None => {
                    return Err(ItemError::InvalidFormat(Field::DeletedAt));
                },
            },
            None => None,
        };
        Ok(
            Entry {
                id,
                created_at,
                deleted_at,
                url: keep_set(self.url),
                email: keep_set(self.email),
                message: self.message,
                name: self.name,
                qa: false,
                ser_options: SerOptions { deleted_at: false, qa: false },
            },
        )
    }
}

} // verus!
