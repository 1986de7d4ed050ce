//! The v2 shapes of projects that the conversions of this crate read.
use vstd::prelude::*;

verus! {

/// Whether a project runs on one side of the game (v2 API).
#[derive(Debug, Clone, Copy, PartialEq, Eq, Structural)]
pub enum LegacySideType {
    Required,
    Optional,
    Unsupported,
    Unknown,
}

/// A donation link as the v2 API sends it: the platform's id and the link.
#[derive(Debug, Clone)]
pub struct DonationLink {
    pub id: String,
    pub url: String,
}

} // verus!
