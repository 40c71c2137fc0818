//! Guestbook entries: the record, its validation, and what of it is shown.

use std::collections::HashMap;
use vstd::prelude::*;
use vstd::string::*;
use vstd::utf8::encode_utf8;
use crate::error::ValidationError;
use crate::ident::{fresh_id, is_random_id};
use crate::record::Record;
use crate::text::{byte_len, copy_opt, str_eq};
use crate::time::{clock_now, Timestamp};

verus! {

/// The longest message that is accepted, in bytes.
pub const MAX_MESSAGE_BYTES: usize = 1200;

/// The longest name that is accepted, in bytes.
pub const MAX_NAME_BYTES: usize = 600;

/// What a visitor submits.
#[derive(Clone, Debug, PartialEq, Eq)]
pub struct GuestbookPostData {
    pub name: String,
    pub message: String,
    pub email: Option<String>,
    pub url: Option<String>,
}

/// A submission together with the flag that marks it as a trial entry.
#[derive(Clone, Debug, PartialEq, Eq)]
pub struct GuestbookForm {
    pub name: String,
    pub message: String,
    pub email: Option<String>,
    pub url: Option<String>,
    pub qa: bool,
}

impl GuestbookPostData {
    /// The submission as a form, not marked as a trial.
    pub fn into_form(self) -> (form: GuestbookForm)
        ensures
            form.name == self.name,
            form.message == self.message,
            form.email == self.email,
            form.url == self.url,
            !form.qa,
    {
        GuestbookForm { name: self.name, message: self.message, email: self.email, url: self.url, qa: false }
    }
}

/// Which of the conditional fields of an entry a response shows.
///
/// The handler sets the flags right before the entry leaves: none for
/// anonymous listings, both for an administrator who fetches or deletes a
/// single entry.
#[derive(Clone, Copy, Debug, PartialEq, Eq, Structural)]
pub struct SerOptions {
    pub deleted_at: bool,
    pub qa: bool,
}

impl SerOptions {
    /// The flags after the option named `key` was switched on. A name that
    /// stands for no option changes nothing.
    pub open spec fn with(self, key: Seq<char>) -> SerOptions {
        if key == "serialize_deleted_at"@ {
            SerOptions { deleted_at: true, qa: self.qa }
        } else if key == "serialize_qa"@ {
            SerOptions { deleted_at: self.deleted_at, qa: true }
        } else {
            self
        }
    }
}

/// Decides that the response options are never written to the table: they
/// belong to one response, not to the entry.
pub struct DummyStruct;

impl DummyStruct {
    /// Whether a field is left out of the stored item, whatever it holds:
    /// always.
    pub fn always_true<T, U>(_options: &HashMap<T, U>) -> (skip: bool)
        ensures
            skip,
    {
        true
    }
}

/// A guestbook entry as it is stored.
#[derive(Debug, PartialEq, Eq)]
pub struct Entry {
    /// The key: a random UUID, as a number.
    pub id: u128,
    pub created_at: Timestamp,
    /// Set once the entry is soft-deleted.
    pub deleted_at: Option<Timestamp>,
    pub url: Option<String>,
    /// Kept for the owner's eyes; never part of a response.
    pub email: Option<String>,
    pub message: String,
    pub name: String,
    /// Marks a trial entry, which listings leave out unless asked.
    pub qa: bool,
    /// Not stored: what the next response shows.
    pub ser_options: SerOptions,
}

/// An entry as a response shows it.
///
/// The identity and content fields are always there. `deleted_at` and `qa`
/// are there only where the entry's flags ask for them: the outer `Option`
/// says whether the field is part of the response. There is no field for the
/// email address.
#[derive(Debug, PartialEq, Eq)]
pub struct DisplayableEntry {
    pub id: u128,
    pub created_at: Timestamp,
    pub url: Option<String>,
    pub message: String,
    pub name: String,
    pub deleted_at: Option<Option<Timestamp>>,
    pub qa: Option<bool>,
}

/// Whether a form passes validation.
pub open spec fn form_error(form: GuestbookForm) -> Option<ValidationError> {
    if encode_utf8(form.message@).len() > MAX_MESSAGE_BYTES {
        Some(ValidationError::MessageTooLong)
    } else if encode_utf8(form.name@).len() > MAX_NAME_BYTES {
        Some(ValidationError::NameTooLong)
    } else {
        None
    }
}

/// The entry that a valid form becomes under a given key and instant.
pub open spec fn entry_of(form: GuestbookForm, id: u128, created_at: Timestamp) -> Entry {
    Entry {
        id,
        created_at,
        deleted_at: None,
        url: form.url,
        email: form.email,
        message: form.message,
        name: form.name,
        qa: form.qa,
        ser_options: SerOptions { deleted_at: false, qa: false },
    }
}

impl Entry {
    /// What a response shows of the entry.
    pub open spec fn shown(self) -> DisplayableEntry {
        DisplayableEntry {
            id: self.id,
            created_at: self.created_at,
            url: self.url,
            message: self.message,
            name: self.name,
            deleted_at: if self.ser_options.deleted_at {
                Some(self.deleted_at)
            } else {
                None
            },
            qa: if self.ser_options.qa {
                Some(self.qa)
            } else {
                None
            },
        }
    }

    /// Validates a form and makes it an entry with the given key and
    /// creation instant.
    pub fn new(form: GuestbookForm, id: u128, created_at: Timestamp) -> (r: Result<Entry, ValidationError>)
        ensures
            match form_error(form) {
                Some(e) => r == Err::<Entry, ValidationError>(e),
                None => r == Ok::<Entry, ValidationError>(entry_of(form, id, created_at)),
            },
    {
        if byte_len(form.message.as_str()) > MAX_MESSAGE_BYTES {
            return Err(ValidationError::MessageTooLong);
        }
        if byte_len(form.name.as_str()) > MAX_NAME_BYTES {
            return Err(ValidationError::NameTooLong);
        }
        Ok(
            Entry {
                id,
                created_at,
                deleted_at: None,
                url: form.url,
                email: form.email,
                message: form.message,
                name: form.name,
                qa: form.qa,
                ser_options: SerOptions { deleted_at: false, qa: false },
            },
        )
    }

    /// Validates a form and makes it a new entry, with a fresh random key
    /// and the current time as its creation instant.
    pub fn try_from(form: GuestbookForm) -> (r: Result<Entry, ValidationError>)
        ensures
            match form_error(form) {
                Some(e) => r == Err::<Entry, ValidationError>(e),
                None => r is Ok && r.unwrap() == entry_of(form, r.unwrap().id, r.unwrap().created_at)
                    && is_random_id(r.unwrap().id),
            },
    {
        let id = fresh_id();
        let now = clock_now();
        Entry::new(form, id, now)
    }

    /// Switches on the response option named `key`: `serialize_deleted_at`
    /// or `serialize_qa`. Nothing else about the entry changes.
    pub fn push_ser_option(&mut self, key: &str)
        ensures
            final(self).ser_options == old(self).ser_options.with(key@),
            final(self).id == old(self).id,
            final(self).created_at == old(self).created_at,
            final(self).deleted_at == old(self).deleted_at,
            final(self).url == old(self).url,
            final(self).email == old(self).email,
            final(self).message == old(self).message,
            final(self).name == old(self).name,
            final(self).qa == old(self).qa,
    {
        if str_eq(key, "serialize_deleted_at") {
            self.ser_options.deleted_at = true;
        } else if str_eq(key, "serialize_qa") {
            self.ser_options.qa = true;
        }
    }

    /// Builds what a response shows of the entry.
    pub fn display(&self) -> (d: DisplayableEntry)
        ensures
            d == self.shown(),
    {
        DisplayableEntry {
            id: self.id,
            created_at: self.created_at,
            url: copy_opt(&self.url),
            message: self.message.clone(),
            name: self.name.clone(),
            deleted_at: if self.ser_options.deleted_at {
                Some(self.deleted_at)
            } else {
                None
            },
            qa: if self.ser_options.qa {
                Some(self.qa)
            } else {
                None
            },
        }
    }
}

impl Default for Entry {
    /// An entry without content: a fresh key, created now, live, with empty
    /// name and message.
    fn default() -> (e: Entry)
        ensures
            is_random_id(e.id),
            e.deleted_at is None,
            e.url is None,
            e.email is None,
            e.message@.len() == 0,
            e.name@.len() == 0,
            !e.qa,
            e.ser_options == (SerOptions { deleted_at: false, qa: false }),
    {
        Entry {
            id: fresh_id(),
            created_at: clock_now(),
            deleted_at: None,
            url: None,
            email: None,
            message: String::new(),
            name: String::new(),
            qa: false,
            ser_options: SerOptions { deleted_at: false, qa: false },
        }
    }
}

impl Record for Entry {
    type Key = u128;

    open spec fn key(&self) -> u128 {
        self.id
    }

    open spec fn created_at(&self) -> Timestamp {
        self.created_at
    }

    open spec fn deleted_at(&self) -> Option<Timestamp> {
        self.deleted_at
    }

    open spec fn flagged(&self) -> bool {
        self.qa
    }

    open spec fn tombstoned(&self, at: Timestamp) -> Entry {
        Entry {
            id: self.id,
            created_at: self.created_at,
            deleted_at: Some(at),
            url: self.url,
            email: self.email,
            message: self.message,
            name: self.name,
            qa: self.qa,
            ser_options: self.ser_options,
        }
    }

    open spec fn key_lt(a: u128, b: u128) -> bool {
        a < b
    }

    proof fn key_order(a: u128, b: u128, c: u128) {
    }

    proof fn tombstone_keeps_identity(&self, at: Timestamp) {
    }

    fn created(&self) -> (t: Timestamp) {
        self.created_at
    }

    fn is_deleted(&self) -> (b: bool) {
        self.deleted_at.is_some()
    }

    fn is_flagged(&self) -> (b: bool) {
        self.qa
    }

    fn has_key(&self, key: &u128) -> (b: bool) {
        self.id == *key
    }

    fn same_key(&self, other: &Entry) -> (b: bool) {
        self.id == other.id
    }

    fn key_before(&self, other: &Entry) -> (b: bool) {
        self.id < other.id
    }

    fn tombstone(self, at: Timestamp) -> (r: Entry) {
        Entry {
            id: self.id,
            created_at: self.created_at,
            deleted_at: Some(at),
            url: self.url,
            email: self.email,
            message: self.message,
            name: self.name,
            qa: self.qa,
            ser_options: self.ser_options,
        }
    }

    fn duplicate(&self) -> (r: Entry) {
        Entry {
            id: self.id,
            created_at: self.created_at,
            deleted_at: self.deleted_at,
            url: copy_opt(&self.url),
            email: copy_opt(&self.email),
            message: self.message.clone(),
            name: self.name.clone(),
            qa: self.qa,
            ser_options: self.ser_options,
        }
    }
}

} // verus!
