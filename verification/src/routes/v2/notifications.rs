//! Notifications (v2): the request bodies.
use vstd::prelude::*;

verus! {

/// A list of notification ids, as a JSON array in a string.
pub struct NotificationIds {
    pub ids: String,
}

} // verus!
