//! The address at which repositories are to be served over the wire.

use vstd::prelude::*;

verus! {

/// The status code of a permanent redirect.
pub const MOVED_PERMANENTLY: u16 = 301;

/// Where a request is sent instead.
#[derive(Debug, Clone, PartialEq, Eq)]
pub struct Redirect {
    pub status: u16,
    pub location: String,
}

/// Answers a request for the repository called `name`. No repository is
/// served over the wire yet: every request is sent, for good, to one address.
pub fn redirect(name: &str) -> (answer: Redirect)
    ensures
        answer.status == MOVED_PERMANENTLY,
        answer.location@ == "/test123/again"@,
{
    Redirect { status: MOVED_PERMANENTLY, location: String::from_str("/test123/again") }
}

} // verus!
