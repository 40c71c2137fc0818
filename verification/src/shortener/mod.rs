//! The link shortener: short names that stand for long URLs.

pub mod entry;
pub mod methods;
pub mod queries;
pub mod stored;
