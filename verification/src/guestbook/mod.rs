//! The public guestbook: messages left by visitors.

pub mod entry;
pub mod methods;
pub mod migration;
pub mod notify;
pub mod queries;
pub mod stored;
