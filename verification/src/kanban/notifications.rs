use vstd::prelude::*;

use super::{patch, patch_opt, patched, patched_opt};

verus! {

/// A notification for a user of an organization.
#[derive(Clone, Debug, PartialEq, Eq)]
pub struct Notification {
    pub id: String,
    pub organization_id: String,
    pub user_id: String,
    pub notification_type: String,
    pub payload: String,
    pub issue_id: Option<String>,
    pub comment_id: Option<String>,
    pub seen: bool,
    pub dismissed_at: Option<String>,
    pub created_at: String,
}

/// Whose notifications to list.
#[derive(Debug)]
pub struct ListNotificationsQuery {
    pub user_id: String,
}

#[derive(Debug)]
pub struct UpdateNotificationRequest {
    pub seen: Option<bool>,
    pub dismissed_at: Option<String>,
}

/// A notification after an update: a given seen flag or dismissal time
/// replaces the stored one.
pub open spec fn notification_after_update(
    n: Notification,
    req: UpdateNotificationRequest,
) -> Notification {
    Notification {
        seen: patched(req.seen, n.seen),
        dismissed_at: patched_opt(req.dismissed_at, n.dismissed_at),
        ..n
    }
}

/// An update replaces exactly the fields it gives: each field the request
/// gives becomes the request's value, each field it leaves out keeps the
/// stored value, and the record's identity never changes.
pub proof fn law_notification_update_replaces_given_fields(n: Notification, req: UpdateNotificationRequest, r: Notification)
    requires
        r == notification_after_update(n, req),
    ensures
        req.seen matches Some(v) ==> r.seen == v,
        req.seen is None ==> r.seen == n.seen,
        req.dismissed_at matches Some(v) ==> r.dismissed_at == Some(v),
        req.dismissed_at is None ==> r.dismissed_at == n.dismissed_at,
        r.id == n.id,
        r.organization_id == n.organization_id,
        r.user_id == n.user_id,
        r.notification_type == n.notification_type,
        r.payload == n.payload,
        r.issue_id == n.issue_id,
        r.comment_id == n.comment_id,
        r.created_at == n.created_at,
{
}

/// The notification to store for an update of `existing`.
pub fn updated_notification(existing: Notification, req: UpdateNotificationRequest) -> (n:
    Notification)
    ensures
        n == notification_after_update(existing, req),
        req.seen matches Some(v) ==> n.seen == v,
        req.seen is None ==> n.seen == existing.seen,
        req.dismissed_at matches Some(v) ==> n.dismissed_at == Some(v),
        req.dismissed_at is None ==> n.dismissed_at == existing.dismissed_at,
{
    Notification {
        id: existing.id,
        organization_id: existing.organization_id,
        user_id: existing.user_id,
        notification_type: existing.notification_type,
        payload: existing.payload,
        issue_id: existing.issue_id,
        comment_id: existing.comment_id,
        seen: patch(req.seen, existing.seen),
        dismissed_at: patch_opt(req.dismissed_at, existing.dismissed_at),
        created_at: existing.created_at,
    }
}

/// An update that gives no field leaves the notification as it was.
pub proof fn law_notification_empty_update(n: Notification)
    ensures
        notification_after_update(n, (UpdateNotificationRequest { seen: None, dismissed_at: None }))
            == n,
{
}

/// Repeating an update changes nothing more.
pub proof fn law_notification_update_idempotent(n: Notification, req: UpdateNotificationRequest)
    ensures
        notification_after_update(notification_after_update(n, req), req)
            == notification_after_update(n, req),
{
}

} // verus!
