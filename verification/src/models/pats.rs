//! The scopes a token may be used for.
use vstd::prelude::*;

verus! {

/// The scopes a token may be used for, one bit each.
#[derive(Debug, Clone, Copy, PartialEq, Eq, Structural)]
pub struct Scopes(pub u64);

} // verus!
