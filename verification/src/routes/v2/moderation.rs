//! Moderation (v2): how many projects the review queue lists.
use vstd::prelude::*;

verus! {

/// How many projects to list.
pub struct ResultCount {
    pub count: i16,
}

/// The number of projects listed when the request names none.
pub fn default_count() -> (r: i16)
    ensures
        r == 100,
{
    100
}

} // verus!
