//! The small endpoints that stand beside the entry store.

pub mod github;
pub mod home;
