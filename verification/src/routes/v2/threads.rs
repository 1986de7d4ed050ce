//! Threads (v2): the request bodies.
use vstd::prelude::*;

verus! {

/// A list of thread ids, as a JSON array in a string.
pub struct ThreadIds {
    pub ids: String,
}

/// A message sent to a thread, with its body (of the thread message type
/// that the caller uses).
pub struct NewThreadMessage<B> {
    pub body: B,
}

} // verus!
