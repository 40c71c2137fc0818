//! The failures that the entry store reports, and what they become at the
//! HTTP boundary.

use vstd::prelude::*;
use vstd::string::*;
use crate::text::owned;

verus! {

/// A submitted payload that breaks a field constraint.
#[derive(Clone, Copy, Debug, PartialEq, Eq, Structural)]
pub enum ValidationError {
    /// A guestbook message of more than 1200 bytes.
    MessageTooLong,
    /// A guestbook name of more than 600 bytes.
    NameTooLong,
    /// A short link without a short name.
    EmptyShortname,
    /// A short link without a target.
    EmptyLongurl,
}

impl ValidationError {
    /// The sentence shown to the client.
    pub open spec fn text(self) -> Seq<char> {
        match self {
            ValidationError::MessageTooLong => "Message must be <= 1200 letters."@,
            ValidationError::NameTooLong => "Name must be <= 600 characters"@,
            ValidationError::EmptyShortname => "Received an empty shortname"@,
            ValidationError::EmptyLongurl => "Received an empty longurl"@,
        }
    }

    pub fn to_string(&self) -> (s: String)
        ensures
            s@ == self.text(),
    {
        match self {
            ValidationError::MessageTooLong => owned("Message must be <= 1200 letters."),
            ValidationError::NameTooLong => owned("Name must be <= 600 characters"),
            ValidationError::EmptyShortname => owned("Received an empty shortname"),
            ValidationError::EmptyLongurl => owned("Received an empty longurl"),
        }
    }
}

/// Why a repository operation failed.
#[derive(Clone, Debug, PartialEq, Eq)]
pub enum RepoError {
    /// The table holds no item under the key.
    NotFound,
    /// A conditional create found the key taken, by a live or a tombstoned
    /// record.
    Conflict,
    /// The payload was rejected before anything was written.
    ValidationFailed(ValidationError),
    /// The table could not be reached or answered with a fault. The caller
    /// may try again; the repository does not.
    StoreUnavailable(String),
}

impl RepoError {
    /// The HTTP status that stands for the failure.
    pub open spec fn status(self) -> u16 {
        match self {
            RepoError::StoreUnavailable(_) => 500,
            _ => 400,
        }
    }

    /// The sentence shown to the client.
    pub open spec fn text(self) -> Seq<char> {
        match self {
            RepoError::NotFound => "No entry found"@,
            RepoError::Conflict => "Entry already exists"@,
            RepoError::ValidationFailed(v) => v.text(),
            RepoError::StoreUnavailable(m) => m@,
        }
    }

    /// Whether trying the same operation again can succeed without any
    /// change on the caller's side.
    pub fn is_retryable(&self) -> (b: bool)
        ensures
            b == (*self is StoreUnavailable),
    {
        match self {
            RepoError::StoreUnavailable(_) => true,
            _ => false,
        }
    }
}

/// A failure as the HTTP boundary reports it.
#[derive(Clone, Debug, PartialEq, Eq)]
pub struct ApiError {
    pub message: String,
    pub status_code: u16,
}

impl ApiError {
    pub fn bad_request(msg: &str) -> (e: ApiError)
        ensures
            e.message@ == msg@,
            e.status_code == 400,
    {
        ApiError { message: owned(msg), status_code: 400 }
    }

    pub fn internal_server_error(msg: &str) -> (e: ApiError)
        ensures
            e.message@ == msg@,
            e.status_code == 500,
    {
        ApiError { message: owned(msg), status_code: 500 }
    }

    pub fn status_code(&self) -> (c: u16)
        ensures
            c == self.status_code,
    {
        self.status_code
    }

    /// Turns a repository failure into a response: a missing record, a conflict and a
    /// rejected payload are the client's to mend (400); an unavailable store
    /// is the server's (500).
    pub fn from_repo(err: &RepoError) -> (e: ApiError)
        ensures
            e.status_code == err.status(),
            e.message@ == err.text(),
    {
        match err {
            RepoError::NotFound => ApiError::bad_request("No entry found"),
            RepoError::Conflict => ApiError::bad_request("Entry already exists"),
            RepoError::ValidationFailed(v) => {
                let m = v.to_string();
                ApiError::bad_request(m.as_str())
            },
            RepoError::StoreUnavailable(m) => ApiError::internal_server_error(m.as_str()),
        }
    }
}

} // verus!
