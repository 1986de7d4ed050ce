//! Which requests pass the rate limit untouched.
use vstd::prelude::*;
use crate::util::text::str_eq;

verus! {

/// Whether a request skips the rate limit: it carries the
/// `x-ratelimit-key` header and the header's text equals the configured key,
/// where a header that is not text and a key that is not configured both
/// count as absent (so they equal each other). `header` is `None` without
/// the header and `Some(None)` when it is not text.
pub fn bypasses_rate_limit(header: Option<Option<&str>>, ignore_key: Option<&str>) -> (r: bool)
    ensures
        r == match header {
            None => false,
            Some(text) => match (text, ignore_key) {
                (None, None) => true,
                (Some(a), Some(b)) => a@ == b@,
                _ => false,
            },
        },
{
    match header {
        None => false,
        Some(text) => match (text, ignore_key) {
            (None, None) => true,
            (Some(a), Some(b)) => str_eq(a, b),
            _ => false,
        },
    }
}

} // verus!
