//! Which origins the analytics routes accept requests from.
use vstd::prelude::*;
use crate::util::text::{clone_strings, str_eq, string_views};

verus! {

broadcast use vstd::string::group_string_axioms;

/// The origins a route accepts requests from.
pub enum AllowedOrigins {
    /// Any origin.
    Any,
    /// The origins listed.
    List(Vec<String>),
}

/// The origins of the analytics routes: any origin where the configured list
/// holds `*`, else the origins listed.
pub fn analytics_origins(configured: &Vec<String>) -> (r: AllowedOrigins)
    ensures
        string_views(configured@).contains("*"@) ==> r is Any,
        !string_views(configured@).contains("*"@) ==> (r matches AllowedOrigins::List(v) && v@ == configured@),
{
    let ghost views = string_views(configured@);
    let mut i: usize = 0;
    while i < configured.len()
        invariant
            i <= configured@.len(),
            views == string_views(configured@),
            forall|k: int| 0 <= k < i ==> views[k] != "*"@,
        decreases configured@.len() - i,
    {
        if str_eq(configured[i].as_str(), "*") {
            assert(views[i as int] == "*"@);
            return AllowedOrigins::Any;
        }
        i = i + 1;
    }
    AllowedOrigins::List(clone_strings(configured))
}

} // verus!
