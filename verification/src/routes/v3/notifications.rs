//! Notifications (v3): who may see, read or delete a notification.
use vstd::prelude::*;
use crate::models::ids::UserId;
use crate::routes::ApiError;
use crate::util::access::{accessible_positions, may_access, spec_accessible_positions};

verus! {

/// A list of notification ids, as a JSON array in a string.
pub struct NotificationIds {
    pub ids: String,
}

/// A notification is open to the user it was sent to and to admins.
pub fn notification_open_to(owner: UserId, user: UserId, user_is_admin: bool) -> (r: bool)
    ensures
        r == (owner == user || user_is_admin),
{
    may_access(owner, user, user_is_admin)
}

/// The notifications, among those fetched (given by whom they were sent to),
/// that the user is shown, in order.
pub fn open_notifications(owners: &[UserId], user: UserId, user_is_admin: bool) -> (r: Vec<usize>)
    ensures
        r@ == spec_accessible_positions(owners@, user, user_is_admin),
{
    accessible_positions(owners, user, user_is_admin)
}

/// What a user does to one notification.
#[derive(Debug, Clone, Copy, PartialEq, Eq, Structural)]
pub enum NotificationAction {
    See,
    Read,
    Delete,
}

/// The refusal of an action on a notification by a user it is not open to:
/// one that is only looked at is not found; reading or deleting it is refused.
pub fn check_notification_action(owner: UserId, user: UserId, user_is_admin: bool, action: NotificationAction) -> (r: Result<(), ApiError>)
    ensures
        r is Ok <==> (owner == user || user_is_admin),
        r is Err ==> match action {
            NotificationAction::See => r == Err::<(), ApiError>(ApiError::NotFound),
            NotificationAction::Read => r matches Err(ApiError::CustomAuthentication(m))
                && m@ == "You are not authorized to read this notification!"@,
            NotificationAction::Delete => r matches Err(ApiError::CustomAuthentication(m))
                && m@ == "You are not authorized to delete this notification!"@,
        },
{
    if notification_open_to(owner, user, user_is_admin) {
        return Ok(());
    }
    match action {
        NotificationAction::See => Err(ApiError::NotFound),
        NotificationAction::Read => Err(ApiError::CustomAuthentication(
            "You are not authorized to read this notification!".to_owned(),
        )),
        NotificationAction::Delete => Err(ApiError::CustomAuthentication(
            "You are not authorized to delete this notification!".to_owned(),
        )),
    }
}

} // verus!
