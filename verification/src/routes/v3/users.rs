//! Users (v3): who may edit, delete or look into a user, and how.
use vstd::prelude::*;
use crate::models::ids::UserId;
use crate::models::users::{Badges, Role};
use crate::routes::ApiError;

verus! {

broadcast use vstd::string::group_string_axioms;

/// A list of user ids, as a JSON array in a string.
pub struct UserIds {
    pub ids: String,
}

/// An edit of a user.
pub struct EditUser {
    pub username: Option<String>,
    pub name: Option<Option<String>>,
    pub bio: Option<Option<String>>,
    pub role: Option<Role>,
    pub badges: Option<Badges>,
    pub venmo_handle: Option<String>,
}

/// Whether an edit of a user goes through: the user or a moderator may edit;
/// a new username must be free or already the editor's own (`username_owner`
/// is who holds it now); only an admin sets the role or the badges; the venmo
/// handle needs a token that may write payouts.
pub fn check_user_edit(
    editor: UserId,
    editor_role: Role,
    may_write_payouts: bool,
    target: UserId,
    edit: &EditUser,
    username_owner: Option<UserId>,
) -> (r: Result<(), ApiError>)
    ensures
        !(editor == target || editor_role.is_mod()) ==> (r matches Err(ApiError::CustomAuthentication(m))
            && m@ == "You do not have permission to edit this user!"@),
        r is Ok <==> {
            &&& editor == target || editor_role.is_mod()
            &&& edit.username is Some && username_owner is Some ==> username_owner->0 == editor
            &&& edit.role is Some ==> editor_role.is_admin()
            &&& edit.badges is Some ==> editor_role.is_admin()
            &&& edit.venmo_handle is Some ==> may_write_payouts
        },
        (editor == target || editor_role.is_mod()) && edit.username is Some && username_owner is Some
            && username_owner->0 != editor ==> (r matches Err(ApiError::InvalidInput(m))
            && m@ == "Username "@ + edit.username->0@ + " is taken!"@),
        (editor == target || editor_role.is_mod())
            && (edit.username is Some && username_owner is Some ==> username_owner->0 == editor)
            && edit.role is Some && !editor_role.is_admin() ==> (r matches Err(ApiError::CustomAuthentication(m))
            && m@ == "You do not have the permissions to edit the role of this user!"@),
        (editor == target || editor_role.is_mod())
            && (edit.username is Some && username_owner is Some ==> username_owner->0 == editor)
            && (edit.role is Some ==> editor_role.is_admin())
            && edit.badges is Some && !editor_role.is_admin() ==> (r matches Err(ApiError::CustomAuthentication(m))
            && m@ == "You do not have the permissions to edit the badges of this user!"@),
        r is Err && (editor == target || editor_role.is_mod())
            && (edit.username is Some && username_owner is Some ==> username_owner->0 == editor)
            && (edit.role is Some ==> editor_role.is_admin())
            && (edit.badges is Some ==> editor_role.is_admin()) ==> (r matches Err(ApiError::CustomAuthentication(m))
            && m@ == "You do not have the permissions to edit the venmo handle of this user!"@),
{
    if !(editor.0 == target.0 || editor_role.is_mod()) {
        return Err(ApiError::CustomAuthentication("You do not have permission to edit this user!".to_owned()));
    }
    if let Some(username) = &edit.username {
        if let Some(owner) = username_owner {
            if owner.0 != editor.0 {
                let mut m = "Username ".to_owned();
                m.append(username.as_str());
                m.append(" is taken!");
                return Err(ApiError::InvalidInput(m));
            }
        }
    }
    if edit.role.is_some() && !editor_role.is_admin() {
        return Err(ApiError::CustomAuthentication(
            "You do not have the permissions to edit the role of this user!".to_owned(),
        ));
    }
    if edit.badges.is_some() && !editor_role.is_admin() {
        return Err(ApiError::CustomAuthentication(
            "You do not have the permissions to edit the badges of this user!".to_owned(),
        ));
    }
    if edit.venmo_handle.is_some() && !may_write_payouts {
        return Err(ApiError::CustomAuthentication(
            "You do not have the permissions to edit the venmo handle of this user!".to_owned(),
        ));
    }
    Ok(())
}

/// The file extension of an uploaded icon.
pub struct Extension {
    pub ext: String,
}

/// The file extension of an uploaded icon, as the v2 routes hand it on.
pub struct FileExt {
    pub ext: String,
}

/// What one user does to another user's account.
#[derive(Debug, Clone, Copy, PartialEq, Eq, Structural)]
pub enum UserAction {
    /// Change the icon: the user or a moderator.
    EditIcon,
    /// Delete the account: the user or an admin.
    Delete,
    /// List the projects followed: the user or an admin.
    SeeFollows,
    /// List the notifications: the user or an admin.
    SeeNotifications,
}

/// The refusal text of each action on another user's account.
pub open spec fn spec_user_action_refusal(action: UserAction) -> Seq<char> {
    match action {
        UserAction::EditIcon => "You don't have permission to edit this user's icon."@,
        UserAction::Delete => "You do not have permission to delete this user!"@,
        UserAction::SeeFollows => "You do not have permission to see the projects this user follows!"@,
        UserAction::SeeNotifications => "You do not have permission to see the notifications of this user!"@,
    }
}

/// Whether the role lets a user act on any account.
pub open spec fn spec_user_action_privileged(action: UserAction, role: Role) -> bool {
    match action {
        UserAction::EditIcon => role == Role::Moderator || role == Role::Admin,
        _ => role == Role::Admin,
    }
}

/// The refusal of an action on a user's account by someone else without the
/// role it needs.
pub fn check_user_action(actor: UserId, actor_role: Role, target: UserId, action: UserAction) -> (r: Result<(), ApiError>)
    ensures
        r is Ok <==> (actor == target || spec_user_action_privileged(action, actor_role)),
        r is Err ==> (r matches Err(ApiError::CustomAuthentication(m)) && m@ == spec_user_action_refusal(action)),
{
    let privileged = match action {
        UserAction::EditIcon => actor_role.is_mod(),
        _ => actor_role.is_admin(),
    };
    if actor.0 == target.0 || privileged {
        return Ok(());
    }
    let m = match action {
        UserAction::EditIcon => "You don't have permission to edit this user's icon.",
        UserAction::Delete => "You do not have permission to delete this user!",
        UserAction::SeeFollows => "You do not have permission to see the projects this user follows!",
        UserAction::SeeNotifications => "You do not have permission to see the notifications of this user!",
    };
    Err(ApiError::CustomAuthentication(m.to_owned()))
}

/// How much of a user a deletion removes: `"full"` or `"partial"`.
pub struct RemovalType {
    pub removal_type: String,
}

/// The removal when the request names none.
pub fn default_removal() -> (r: String)
    ensures
        r@ == "partial"@,
{
    "partial".to_owned()
}

/// Whether the deletion removes the user's content too.
pub fn is_full_removal(removal: &RemovalType) -> (r: bool)
    ensures
        r == (removal.removal_type@ == "full"@),
{
    crate::util::text::str_eq(removal.removal_type.as_str(), "full")
}


/// Whether a viewer sees a user's private projects and collections: a
/// moderator does, and so does the user.
pub fn can_view_private(viewer: Option<(UserId, Role)>, user: UserId) -> (r: bool)
    ensures
        r == (viewer matches Some((id, role)) && (role.is_mod() || id == user)),
{
    match viewer {
        Some((id, role)) => role.is_mod() || id.0 == user.0,
        None => false,
    }
}

/// The positions, in order, of a user's items shown: all to one who may see
/// private ones, otherwise those listed publicly.
pub open spec fn spec_shown_listing(listed: Seq<bool>, can_view_private: bool) -> Seq<usize>
    decreases listed.len(),
{
    if listed.len() == 0 {
        Seq::empty()
    } else {
        let before = spec_shown_listing(listed.drop_last(), can_view_private);
        if can_view_private || listed.last() {
            before.push((listed.len() - 1) as usize)
        } else {
            before
        }
    }
}

/// The positions of a user's projects (listed: searchable) or collections
/// (listed: status listed) that the viewer is shown.
pub fn shown_listing(listed: &[bool], can_view_private: bool) -> (r: Vec<usize>)
    ensures
        r@ == spec_shown_listing(listed@, can_view_private),
{
    let mut shown: Vec<usize> = Vec::new();
    let mut j: usize = 0;
    while j < listed.len()
        invariant
            j <= listed@.len(),
            shown@ == spec_shown_listing(listed@.take(j as int), can_view_private),
        decreases listed@.len() - j,
    {
        assert(listed@.take(j + 1).drop_last() == listed@.take(j as int));
        if can_view_private || listed[j] {
            shown.push(j);
        }
        j = j + 1;
    }
    assert(listed@.take(listed@.len() as int) == listed@);
    shown
}


/// Whether a character may stand in a username or a display name: an ASCII
/// letter or digit, `_` or `-`.
pub open spec fn is_url_safe_char(c: char) -> bool {
    ('a' <= c && c <= 'z') || ('A' <= c && c <= 'Z') || ('0' <= c && c <= '9') || c == '_' || c == '-'
}

/// Whether a text has between `min` and `max` characters, each url-safe.
pub open spec fn url_safe_name(t: Seq<char>, min: nat, max: nat) -> bool {
    &&& min <= t.len() <= max
    &&& forall|i: int| 0 <= i < t.len() ==> is_url_safe_char(#[trigger] t[i])
}

/// The rules an edit of a user must meet before anything else is looked at:
/// a username of 1 to 39 url-safe characters, a display name of 1 to 64
/// url-safe characters, a bio and a venmo handle of at most 160 characters
/// (each where given).
pub open spec fn spec_edit_user_valid(edit: EditUser) -> bool {
    &&& edit.username matches Some(u) ==> url_safe_name(u@, 1, 39)
    &&& edit.name matches Some(Some(n)) ==> url_safe_name(n@, 1, 64)
    &&& edit.bio matches Some(Some(b)) ==> b@.len() <= 160
    &&& edit.venmo_handle matches Some(v) ==> v@.len() <= 160
}

fn is_url_safe_name(t: &str, min: usize, max: usize) -> (r: bool)
    ensures
        r == url_safe_name(t@, min as nat, max as nat),
{
    let chars = crate::util::text::str_chars(t);
    if chars.len() < min || chars.len() > max {
        return false;
    }
    let mut i: usize = 0;
    while i < chars.len()
        invariant
            i <= chars@.len(),
            chars@ == t@,
            forall|k: int| 0 <= k < i ==> is_url_safe_char(#[trigger] chars@[k]),
        decreases chars@.len() - i,
    {
        let c = chars[i];
        if !(('a' <= c && c <= 'z') || ('A' <= c && c <= 'Z') || ('0' <= c && c <= '9') || c == '_' || c == '-') {
            return false;
        }
        i = i + 1;
    }
    true
}

fn char_count_at_most(t: &str, max: usize) -> (r: bool)
    ensures
        r == (t@.len() <= max),
{
    crate::util::text::str_chars(t).len() <= max
}

/// Whether an edit of a user meets the rules on its fields; an edit that does
/// not is refused as invalid before it is looked at further.
pub fn edit_user_is_valid(edit: &EditUser) -> (r: bool)
    ensures
        r == spec_edit_user_valid(*edit),
{
    let username_ok = match &edit.username {
        Some(u) => is_url_safe_name(u.as_str(), 1, 39),
        None => true,
    };
    let name_ok = match &edit.name {
        Some(Some(n)) => is_url_safe_name(n.as_str(), 1, 64),
        _ => true,
    };
    let bio_ok = match &edit.bio {
        Some(Some(b)) => char_count_at_most(b.as_str(), 160),
        _ => true,
    };
    let venmo_ok = match &edit.venmo_handle {
        Some(v) => char_count_at_most(v.as_str(), 160),
        None => true,
    };
    username_ok && name_ok && bio_ok && venmo_ok
}


/// What a user is shown of their own account's private fields: the email
/// only with a token that may read it, the payout data only with one that
/// may read payouts.
pub fn shown_private_fields<E, P>(
    may_read_email: bool,
    may_read_payouts: bool,
    email: Option<E>,
    payout_data: Option<P>,
) -> (r: (Option<E>, Option<P>))
    ensures
        r.0 == (if may_read_email { email } else { None }),
        r.1 == (if may_read_payouts { payout_data } else { None }),
{
    let e = if may_read_email { email } else { None };
    let p = if may_read_payouts { payout_data } else { None };
    (e, p)
}

} // verus!
