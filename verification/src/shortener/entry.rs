//! Short links: the record and its validation.

use vstd::prelude::*;
use vstd::string::*;
use crate::error::ValidationError;
use crate::record::Record;
use crate::text::{lemma_text_order, str_before, str_eq, text_lt};
use crate::time::{clock_now, Timestamp};

verus! {

/// What the owner submits to create a short link.
#[derive(Clone, Debug, PartialEq, Eq)]
pub struct CreateEntryForm {
    pub shortname: String,
    pub longurl: String,
}

/// A short link as it is stored.
#[derive(Debug, PartialEq, Eq)]
pub struct Entry {
    /// The key: the short name that the owner chose.
    pub shortname: String,
    pub created_at: Timestamp,
    /// Set once the link is soft-deleted. Never part of a response.
    pub deleted_at: Option<Timestamp>,
    /// The target.
    pub longurl: String,
    /// How often the link was followed, as the last statistics run counted.
    pub clicks: u32,
}

/// A short link as a response shows it: without its deletion instant.
#[derive(Debug, PartialEq, Eq)]
pub struct DisplayableEntry {
    pub shortname: String,
    pub created_at: Timestamp,
    pub longurl: String,
    pub clicks: u32,
}

/// Why a form is rejected, if it is.
pub open spec fn form_error(form: CreateEntryForm) -> Option<ValidationError> {
    if form.shortname@.len() == 0 {
        Some(ValidationError::EmptyShortname)
    } else if form.longurl@.len() == 0 {
        Some(ValidationError::EmptyLongurl)
    } else {
        None
    }
}

/// The link that a valid form becomes at a given instant.
pub open spec fn entry_of(form: CreateEntryForm, created_at: Timestamp) -> Entry {
    Entry { shortname: form.shortname, created_at, deleted_at: None, longurl: form.longurl, clicks: 0 }
}

impl Entry {
    /// Validates a form and makes it a link created at `created_at`, live
    /// and with no clicks.
    pub fn new(form: CreateEntryForm, created_at: Timestamp) -> (r: Result<Entry, ValidationError>)
        ensures
            match form_error(form) {
                Some(e) => r == Err::<Entry, ValidationError>(e),
                None => r == Ok::<Entry, ValidationError>(entry_of(form, created_at)),
            },
    {
        if form.shortname.as_str().is_empty() {
            return Err(ValidationError::EmptyShortname);
        }
        if form.longurl.as_str().is_empty() {
            return Err(ValidationError::EmptyLongurl);
        }
        Ok(
            Entry {
                shortname: form.shortname,
                created_at,
                deleted_at: None,
                longurl: form.longurl,
                clicks: 0,
            },
        )
    }

    /// Validates a form and makes it a link created now.
    pub fn try_from(form: CreateEntryForm) -> (r: Result<Entry, ValidationError>)
        ensures
            match form_error(form) {
                Some(e) => r == Err::<Entry, ValidationError>(e),
                None => r is Ok && r.unwrap() == entry_of(form, r.unwrap().created_at),
            },
    {
        let now = clock_now();
        Entry::new(form, now)
    }

    /// What a response shows of the link.
    pub open spec fn shown(self) -> DisplayableEntry {
        DisplayableEntry {
            shortname: self.shortname,
            created_at: self.created_at,
            longurl: self.longurl,
            clicks: self.clicks,
        }
    }

    /// Builds what a response shows of the link.
    pub fn display(&self) -> (d: DisplayableEntry)
        ensures
            d == self.shown(),
    {
        DisplayableEntry {
            shortname: self.shortname.clone(),
            created_at: self.created_at,
            longurl: self.longurl.clone(),
            clicks: self.clicks,
        }
    }

    /// The link with its click counter set to what a statistics run
    /// counted. Nothing else changes.
    pub fn with_clicks(self, clicks: u32) -> (r: Entry)
        ensures
            r == (Entry { clicks, ..self }),
    {
        Entry {
            shortname: self.shortname,
            created_at: self.created_at,
            deleted_at: self.deleted_at,
            longurl: self.longurl,
            clicks,
        }
    }
}

impl Record for Entry {
    type Key = String;

    open spec fn key(&self) -> Seq<char> {
        self.shortname@
    }

    open spec fn created_at(&self) -> Timestamp {
        self.created_at
    }

    open spec fn deleted_at(&self) -> Option<Timestamp> {
        self.deleted_at
    }

    open spec fn flagged(&self) -> bool {
        false
    }

    open spec fn tombstoned(&self, at: Timestamp) -> Entry {
        Entry { deleted_at: Some(at), ..*self }
    }

    open spec fn key_lt(a: Seq<char>, b: Seq<char>) -> bool {
        text_lt(a, b)
    }

    proof fn key_order(a: Seq<char>, b: Seq<char>, c: Seq<char>) {
        lemma_text_order(a, b, c);
    }

    proof fn tombstone_keeps_identity(&self, at: Timestamp) {
    }

    fn created(&self) -> (t: Timestamp) {
        self.created_at
    }

    fn is_deleted(&self) -> (b: bool) {
        self.deleted_at.is_some()
    }

    fn is_flagged(&self) -> (b: bool) {
        false
    }

    fn has_key(&self, key: &String) -> (b: bool) {
        str_eq(self.shortname.as_str(), key.as_str())
    }

    fn same_key(&self, other: &Entry) -> (b: bool) {
        str_eq(self.shortname.as_str(), other.shortname.as_str())
    }

    fn key_before(&self, other: &Entry) -> (b: bool) {
        str_before(self.shortname.as_str(), other.shortname.as_str())
    }

    fn tombstone(self, at: Timestamp) -> (r: Entry) {
        Entry {
            shortname: self.shortname,
            created_at: self.created_at,
            deleted_at: Some(at),
            longurl: self.longurl,
            clicks: self.clicks,
        }
    }

    fn duplicate(&self) -> (r: Entry) {
        Entry {
            shortname: self.shortname.clone(),
            created_at: self.created_at,
            deleted_at: self.deleted_at,
            longurl: self.longurl.clone(),
            clicks: self.clicks,
        }
    }
}

} // verus!
