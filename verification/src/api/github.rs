//! The star counter of a retired project.

use vstd::prelude::*;
use crate::text::owned;

verus! {

/// What the star counter answers. The endpoint is kept for old clients and
/// always answers the same.
#[derive(Debug, PartialEq, Eq)]
pub struct StargazerResponse {
    pub stargazers: u32,
    pub has_notifs: bool,
    pub message: String,
}

impl Default for StargazerResponse {
    fn default() -> (r: StargazerResponse)
        ensures
            r.stargazers == 0,
            !r.has_notifs,
            r.message@ == "This endpoint is deprecated."@,
    {
        StargazerResponse { stargazers: 0, has_notifs: false, message: owned("This endpoint is deprecated.") }
    }
}

} // verus!
