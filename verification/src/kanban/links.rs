//! Records that hang off issues: assignees, followers, tags, relationships,
//! comments and comment reactions.

use vstd::prelude::*;

use super::{patch, patched};
use crate::clock::{is_millis_utc_text, mutation_timestamp};
use crate::ids::{resolve_record_id, resolves_record_id};

verus! {

/// A user assigned to an issue.
#[derive(Clone, Debug, PartialEq, Eq)]
pub struct IssueAssignee {
    pub id: String,
    pub issue_id: String,
    pub user_id: String,
    pub assigned_at: String,
}

#[derive(Debug)]
pub struct CreateIssueAssigneeRequest {
    pub id: Option<String>,
    pub issue_id: String,
    pub user_id: String,
}

/// The assignment to insert: the requested or a fresh id, assigned now.
pub fn new_issue_assignee(req: CreateIssueAssigneeRequest) -> (a: IssueAssignee)
    ensures
        resolves_record_id(req.id, a.id),
        a.issue_id == req.issue_id,
        a.user_id == req.user_id,
        is_millis_utc_text(a.assigned_at@),
{
    let id = resolve_record_id(req.id);
    let now = mutation_timestamp();
    IssueAssignee { id, issue_id: req.issue_id, user_id: req.user_id, assigned_at: now }
}

/// A user following an issue.
#[derive(Clone, Debug, PartialEq, Eq)]
pub struct IssueFollower {
    pub id: String,
    pub issue_id: String,
    pub user_id: String,
}

#[derive(Debug)]
pub struct CreateIssueFollowerRequest {
    pub id: Option<String>,
    pub issue_id: String,
    pub user_id: String,
}

/// The follow to insert: the requested or a fresh id.
pub fn new_issue_follower(req: CreateIssueFollowerRequest) -> (f: IssueFollower)
    ensures
        resolves_record_id(req.id, f.id),
        f.issue_id == req.issue_id,
        f.user_id == req.user_id,
{
    let id = resolve_record_id(req.id);
    IssueFollower { id, issue_id: req.issue_id, user_id: req.user_id }
}

/// A tag put on an issue.
#[derive(Clone, Debug, PartialEq, Eq)]
pub struct IssueTag {
    pub id: String,
    pub issue_id: String,
    pub tag_id: String,
}

#[derive(Debug)]
pub struct CreateIssueTagRequest {
    pub id: Option<String>,
    pub issue_id: String,
    pub tag_id: String,
}

/// The tagging to insert: the requested or a fresh id.
pub fn new_issue_tag(req: CreateIssueTagRequest) -> (t: IssueTag)
    ensures
        resolves_record_id(req.id, t.id),
        t.issue_id == req.issue_id,
        t.tag_id == req.tag_id,
{
    let id = resolve_record_id(req.id);
    IssueTag { id, issue_id: req.issue_id, tag_id: req.tag_id }
}

/// A relation from one issue to another.
#[derive(Clone, Debug, PartialEq, Eq)]
pub struct IssueRelationship {
    pub id: String,
    pub issue_id: String,
    pub related_issue_id: String,
    pub relationship_type: String,
    pub created_at: String,
}

#[derive(Debug)]
pub struct CreateIssueRelationshipRequest {
    pub id: Option<String>,
    pub issue_id: String,
    pub related_issue_id: String,
    pub relationship_type: String,
}

/// The relation to insert: the requested or a fresh id, created now.
pub fn new_issue_relationship(req: CreateIssueRelationshipRequest) -> (r: IssueRelationship)
    ensures
        resolves_record_id(req.id, r.id),
        r.issue_id == req.issue_id,
        r.related_issue_id == req.related_issue_id,
        r.relationship_type == req.relationship_type,
        is_millis_utc_text(r.created_at@),
{
    let id = resolve_record_id(req.id);
    let now = mutation_timestamp();
    IssueRelationship {
        id,
        issue_id: req.issue_id,
        related_issue_id: req.related_issue_id,
        relationship_type: req.relationship_type,
        created_at: now,
    }
}

/// An emoji reaction of a user to a comment.
#[derive(Clone, Debug, PartialEq, Eq)]
pub struct IssueCommentReaction {
    pub id: String,
    pub comment_id: String,
    pub user_id: String,
    pub emoji: String,
    pub created_at: String,
}

#[derive(Debug)]
pub struct CreateIssueCommentReactionRequest {
    pub id: Option<String>,
    pub comment_id: String,
    pub user_id: String,
    pub emoji: String,
}

/// The reaction to insert: the requested or a fresh id, created now.
pub fn new_issue_comment_reaction(req: CreateIssueCommentReactionRequest) -> (r:
    IssueCommentReaction)
    ensures
        resolves_record_id(req.id, r.id),
        r.comment_id == req.comment_id,
        r.user_id == req.user_id,
        r.emoji == req.emoji,
        is_millis_utc_text(r.created_at@),
{
    let id = resolve_record_id(req.id);
    let now = mutation_timestamp();
    IssueCommentReaction {
        id,
        comment_id: req.comment_id,
        user_id: req.user_id,
        emoji: req.emoji,
        created_at: now,
    }
}

/// A comment on an issue, possibly a reply to another.
#[derive(Clone, Debug, PartialEq, Eq)]
pub struct IssueComment {
    pub id: String,
    pub issue_id: String,
    pub author_id: Option<String>,
    pub parent_id: Option<String>,
    pub message: String,
    pub created_at: String,
    pub updated_at: String,
}

#[derive(Debug)]
pub struct CreateIssueCommentRequest {
    pub id: Option<String>,
    pub issue_id: String,
    pub author_id: Option<String>,
    pub parent_id: Option<String>,
    pub message: String,
}

#[derive(Debug)]
pub struct UpdateIssueCommentRequest {
    pub message: Option<String>,
}

/// The comment to insert: the requested or a fresh id, created now.
pub fn new_issue_comment(req: CreateIssueCommentRequest) -> (c: IssueComment)
    ensures
        resolves_record_id(req.id, c.id),
        c.issue_id == req.issue_id,
        c.author_id == req.author_id,
        c.parent_id == req.parent_id,
        c.message == req.message,
        c.updated_at == c.created_at,
        is_millis_utc_text(c.created_at@),
{
    let id = resolve_record_id(req.id);
    let now = mutation_timestamp();
    let updated_at = now.clone();
    IssueComment {
        id,
        issue_id: req.issue_id,
        author_id: req.author_id,
        parent_id: req.parent_id,
        message: req.message,
        created_at: now,
        updated_at,
    }
}

/// A comment after an update at time `now`: a given message replaces the
/// stored one, and the update time becomes `now`.
pub open spec fn comment_after_update(
    c: IssueComment,
    req: UpdateIssueCommentRequest,
    now: String,
) -> IssueComment {
    IssueComment { message: patched(req.message, c.message), updated_at: now, ..c }
}

/// An update replaces exactly the fields it gives: each field the request
/// gives becomes the request's value, each field it leaves out keeps the
/// stored value, and the record's identity never changes, while the update time becomes `now`.
pub proof fn law_comment_update_replaces_given_fields(c: IssueComment, req: UpdateIssueCommentRequest, now: String, r: IssueComment)
    requires
        r == comment_after_update(c, req, now),
    ensures
        req.message matches Some(v) ==> r.message == v,
        req.message is None ==> r.message == c.message,
        r.id == c.id,
        r.issue_id == c.issue_id,
        r.author_id == c.author_id,
        r.parent_id == c.parent_id,
        r.created_at == c.created_at,
        r.updated_at == now,
{
}

/// The comment to store for an update of `existing`, updated now.
pub fn updated_issue_comment(existing: IssueComment, req: UpdateIssueCommentRequest) -> (c:
    IssueComment)
    ensures
        c == comment_after_update(existing, req, c.updated_at),
        is_millis_utc_text(c.updated_at@),
        req.message matches Some(v) ==> c.message == v,
        req.message is None ==> c.message == existing.message,
{
    let now = mutation_timestamp();
    IssueComment {
        id: existing.id,
        issue_id: existing.issue_id,
        author_id: existing.author_id,
        parent_id: existing.parent_id,
        message: patch(req.message, existing.message),
        created_at: existing.created_at,
        updated_at: now,
    }
}

/// An update without a message changes only the update time.
pub proof fn law_comment_empty_update(c: IssueComment, now: String)
    ensures
        comment_after_update(c, (UpdateIssueCommentRequest { message: None }), now) == (
        IssueComment { updated_at: now, ..c }),
{
}

/// Repeating an update at the same time changes nothing more.
pub proof fn law_comment_update_idempotent(
    c: IssueComment,
    req: UpdateIssueCommentRequest,
    now: String,
)
    ensures
        comment_after_update(comment_after_update(c, req, now), req, now) == comment_after_update(
            c,
            req,
            now,
        ),
{
}

} // verus!
