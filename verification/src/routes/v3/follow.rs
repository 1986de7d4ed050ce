//! Following users and organizations (v3): what a failed follow answers.
use vstd::prelude::*;
use crate::routes::ApiError;

verus! {

broadcast use vstd::string::group_string_axioms;

/// Something that can be followed, known by its id.
pub trait HasId<T> {
    fn id(&self) -> T;
}

/// Why a follow or unfollow failed.
#[derive(Debug, Clone, Copy, PartialEq, Eq, Structural)]
pub enum FollowFailure {
    /// Nothing of that kind has the given name or id.
    Missing,
    /// The user follows it already (a follow only).
    AlreadyFollowing,
}

/// The answer to a failed follow of a thing of kind `word` (such as `user`).
pub fn follow_error(failure: FollowFailure, word: &str) -> (r: ApiError)
    ensures
        r matches ApiError::InvalidInput(m) && m@ == match failure {
            FollowFailure::Missing => "The specified "@ + word@ + " does not exist!"@,
            FollowFailure::AlreadyFollowing => "You are already following this "@ + word@ + "!"@,
        },
{
    let mut m = match failure {
        FollowFailure::Missing => "The specified ".to_owned(),
        FollowFailure::AlreadyFollowing => "You are already following this ".to_owned(),
    };
    m.append(word);
    match failure {
        FollowFailure::Missing => m.append(" does not exist!"),
        FollowFailure::AlreadyFollowing => m.append("!"),
    }
    ApiError::InvalidInput(m)
}

} // verus!
