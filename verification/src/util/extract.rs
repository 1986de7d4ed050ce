//! The request parts a route takes, each holding what was read.
use vstd::prelude::*;

verus! {

/// A JSON body.
pub struct Json<T>(pub T);

/// A form body.
pub struct Form<T>(pub T);

/// The parameters in the path.
pub struct Path<T>(pub T);

/// The query string.
pub struct Query<T>(pub T);

/// A value the server shares with every route.
pub struct Extension<T>(pub T);

/// A body read as text.
pub struct StringExtract(pub String);

} // verus!
