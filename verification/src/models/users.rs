//! The role and badges of a user.
use vstd::prelude::*;

verus! {

/// The role of a user on the site.
#[derive(Debug, Clone, Copy, PartialEq, Eq, Structural)]
pub enum Role {
    Developer,
    Moderator,
    Admin,
}

impl Role {
    /// Moderators and admins moderate.
    pub open spec fn spec_is_mod(&self) -> bool {
        *self == Role::Moderator || *self == Role::Admin
    }

    /// Only admins administer.
    pub open spec fn spec_is_admin(&self) -> bool {
        *self == Role::Admin
    }

    /// Moderators and admins moderate.
    #[verifier::when_used_as_spec(spec_is_mod)]
    pub fn is_mod(&self) -> (r: bool)
        ensures
            r == (*self == Role::Moderator || *self == Role::Admin),
    {
        match self {
            Role::Developer => false,
            _ => true,
        }
    }

    /// Only admins administer.
    #[verifier::when_used_as_spec(spec_is_admin)]
    pub fn is_admin(&self) -> (r: bool)
        ensures
            r == (*self == Role::Admin),
    {
        match self {
            Role::Admin => true,
            _ => false,
        }
    }
}

/// The badges of a user, one bit each.
#[derive(Debug, Clone, Copy, PartialEq, Eq, Structural)]
pub struct Badges(pub u64);

} // verus!
