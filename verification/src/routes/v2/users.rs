//! Users (v2): the request bodies, handed on to the v3 routes.
use vstd::prelude::*;
use crate::models::users::{Badges, Role};
use crate::routes::v3::users as v3_users;

verus! {

/// A list of user ids, as a JSON array in a string.
pub struct UserIds {
    pub ids: String,
}

/// An edit of a user (v2): no venmo handle.
pub struct EditUser {
    pub username: Option<String>,
    pub name: Option<Option<String>>,
    pub bio: Option<Option<String>>,
    pub role: Option<Role>,
    pub badges: Option<Badges>,
}

impl EditUser {
    /// The same edit in its v3 shape, which leaves the venmo handle alone.
    pub fn into_v3(self) -> (r: v3_users::EditUser)
        ensures
            r.username == self.username && r.name == self.name && r.bio == self.bio,
            r.role == self.role && r.badges == self.badges,
            r.venmo_handle is None,
    {
        v3_users::EditUser {
            username: self.username,
            name: self.name,
            bio: self.bio,
            role: self.role,
            badges: self.badges,
            venmo_handle: None,
        }
    }
}

/// The file extension of an uploaded icon.
pub struct FileExt {
    pub ext: String,
}

} // verus!
