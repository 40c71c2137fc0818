//! The entry store of a small personal API.
//!
//! Two collections of records are kept in a remote key-value table: the
//! messages of a public guestbook and the links of a link shortener. Both
//! follow one pattern, which is what this library is about:
//!
//! - a record has a key that never changes, an instant of creation, and an
//!   optional instant of deletion ([`record`]);
//! - records are never erased: deleting one sets its tombstone, and deleting
//!   it again sets the tombstone again ([`repository`]);
//! - a record is created by a conditional write, so that a key that is
//!   taken, by a live or by a deleted record, is never overwritten
//!   ([`store`], [`repository`]);
//! - a listing is a full scan, without the deleted records, in order of
//!   creation, cut down to what follows a cursor ([`listing`]);
//! - what a response shows of a record depends on what the response is for
//!   ([`guestbook::methods`]).
//!
//! The library does no input or output. It says what to ask of the table
//! and reads what the table answered; the calls themselves are made by the
//! program around it. [`store::MemoryTable`] is a table in memory that
//! answers as the remote table is required to.
//!
//! Beside the entry store stand the small things that the same API serves:
//! the channels and messages of its Slack notifications ([`slack`]), the
//! colours of an office light ([`api::home`]), and a cache of what is known
//! of IP addresses ([`ipinfo`]).

pub mod api;
pub mod error;
pub mod guestbook;
pub mod ident;
pub mod ipinfo;
pub mod item;
pub mod listing;
pub mod number;
pub mod record;
pub mod repository;
pub mod shortener;
pub mod slack;
pub mod store;
pub mod stored;
pub mod text;
pub mod time;
