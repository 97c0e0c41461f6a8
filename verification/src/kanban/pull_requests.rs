use vstd::prelude::*;

use super::{patch, patch_opt, patched, patched_opt};
use crate::clock::{is_millis_utc_text, mutation_timestamp};
use crate::ids::{resolve_record_id, resolves_record_id};

verus! {

/// The state of a pull request recorded without one.
pub const DEFAULT_PULL_REQUEST_STATUS: &'static str = "open";

/// A pull request linked to an issue.
#[derive(Clone, Debug, PartialEq, Eq)]
pub struct PullRequest {
    pub id: String,
    pub url: String,
    pub number: i64,
    pub status: String,
    pub merged_at: Option<String>,
    pub merge_commit_sha: Option<String>,
    pub target_branch_name: String,
    pub issue_id: String,
    pub workspace_id: Option<String>,
    pub created_at: String,
    pub updated_at: String,
}

#[derive(Debug)]
pub struct CreatePullRequestRequest {
    pub id: Option<String>,
    pub url: String,
    pub number: i64,
    pub status: Option<String>,
    pub merged_at: Option<String>,
    pub merge_commit_sha: Option<String>,
    pub target_branch_name: String,
    pub issue_id: String,
    pub workspace_id: Option<String>,
}

#[derive(Debug)]
pub struct UpdatePullRequestRequest {
    pub url: Option<String>,
    pub number: Option<i64>,
    pub status: Option<String>,
    pub merged_at: Option<String>,
    pub merge_commit_sha: Option<String>,
    pub target_branch_name: Option<String>,
    pub workspace_id: Option<String>,
}

/// The pull request to insert (or to update the one with the same url by)
/// for a create request: the requested or a fresh id, status `open` unless
/// given, recorded now.
pub fn new_pull_request(req: CreatePullRequestRequest) -> (p: PullRequest)
    ensures
        resolves_record_id(req.id, p.id),
        p.url == req.url,
        p.number == req.number,
        req.status matches Some(s) ==> p.status == s,
        req.status is None ==> p.status@ == DEFAULT_PULL_REQUEST_STATUS@,
        p.merged_at == req.merged_at,
        p.merge_commit_sha == req.merge_commit_sha,
        p.target_branch_name == req.target_branch_name,
        p.issue_id == req.issue_id,
        p.workspace_id == req.workspace_id,
        p.updated_at == p.created_at,
        is_millis_utc_text(p.created_at@),
{
    let id = resolve_record_id(req.id);
    let status = match req.status {
        Some(s) => s,
        None => String::from_str(DEFAULT_PULL_REQUEST_STATUS),
    };
    let now = mutation_timestamp();
    let updated_at = now.clone();
    PullRequest {
        id,
        url: req.url,
        number: req.number,
        status,
        merged_at: req.merged_at,
        merge_commit_sha: req.merge_commit_sha,
        target_branch_name: req.target_branch_name,
        issue_id: req.issue_id,
        workspace_id: req.workspace_id,
        created_at: now,
        updated_at,
    }
}

/// A pull request after an update at time `now`: each given field replaces
/// the stored one, and the update time becomes `now`.
pub open spec fn pull_request_after_update(
    p: PullRequest,
    req: UpdatePullRequestRequest,
    now: String,
) -> PullRequest {
    PullRequest {
        url: patched(req.url, p.url),
        number: patched(req.number, p.number),
        status: patched(req.status, p.status),
        merged_at: patched_opt(req.merged_at, p.merged_at),
        merge_commit_sha: patched_opt(req.merge_commit_sha, p.merge_commit_sha),
        target_branch_name: patched(req.target_branch_name, p.target_branch_name),
        workspace_id: patched_opt(req.workspace_id, p.workspace_id),
        updated_at: now,
        ..p
    }
}

/// An update replaces exactly the fields it gives: each field the request
/// gives becomes the request's value, each field it leaves out keeps the
/// stored value, and the record's identity never changes, while the update time becomes `now`.
pub proof fn law_pull_request_update_replaces_given_fields(p: PullRequest, req: UpdatePullRequestRequest, now: String, r: PullRequest)
    requires
        r == pull_request_after_update(p, req, now),
    ensures
        req.url matches Some(v) ==> r.url == v,
        req.url is None ==> r.url == p.url,
        req.number matches Some(v) ==> r.number == v,
        req.number is None ==> r.number == p.number,
        req.status matches Some(v) ==> r.status == v,
        req.status is None ==> r.status == p.status,
        req.merged_at matches Some(v) ==> r.merged_at == Some(v),
        req.merged_at is None ==> r.merged_at == p.merged_at,
        req.merge_commit_sha matches Some(v) ==> r.merge_commit_sha == Some(v),
        req.merge_commit_sha is None ==> r.merge_commit_sha == p.merge_commit_sha,
        req.target_branch_name matches Some(v) ==> r.target_branch_name == v,
        req.target_branch_name is None ==> r.target_branch_name == p.target_branch_name,
        req.workspace_id matches Some(v) ==> r.workspace_id == Some(v),
        req.workspace_id is None ==> r.workspace_id == p.workspace_id,
        r.id == p.id,
        r.issue_id == p.issue_id,
        r.created_at == p.created_at,
        r.updated_at == now,
{
}

/// The pull request to store for an update of `existing`, updated now.
pub fn updated_pull_request(existing: PullRequest, req: UpdatePullRequestRequest) -> (p:
    PullRequest)
    ensures
        p == pull_request_after_update(existing, req, p.updated_at),
        is_millis_utc_text(p.updated_at@),
        req.url matches Some(v) ==> p.url == v,
        req.url is None ==> p.url == existing.url,
        req.number matches Some(v) ==> p.number == v,
        req.number is None ==> p.number == existing.number,
        req.status matches Some(v) ==> p.status == v,
        req.status is None ==> p.status == existing.status,
        req.merged_at matches Some(v) ==> p.merged_at == Some(v),
        req.merged_at is None ==> p.merged_at == existing.merged_at,
        req.merge_commit_sha matches Some(v) ==> p.merge_commit_sha == Some(v),
        req.merge_commit_sha is None ==> p.merge_commit_sha == existing.merge_commit_sha,
        req.target_branch_name matches Some(v) ==> p.target_branch_name == v,
        req.target_branch_name is None ==> p.target_branch_name == existing.target_branch_name,
        req.workspace_id matches Some(v) ==> p.workspace_id == Some(v),
        req.workspace_id is None ==> p.workspace_id == existing.workspace_id,
{
    let now = mutation_timestamp();
    PullRequest {
        id: existing.id,
        url: patch(req.url, existing.url),
        number: patch(req.number, existing.number),
        status: patch(req.status, existing.status),
        merged_at: patch_opt(req.merged_at, existing.merged_at),
        merge_commit_sha: patch_opt(req.merge_commit_sha, existing.merge_commit_sha),
        target_branch_name: patch(req.target_branch_name, existing.target_branch_name),
        issue_id: existing.issue_id,
        workspace_id: patch_opt(req.workspace_id, existing.workspace_id),
        created_at: existing.created_at,
        updated_at: now,
    }
}

/// An update that gives no field changes only the update time.
pub proof fn law_pull_request_empty_update(p: PullRequest, now: String)
    ensures
        pull_request_after_update(
            p,
            (UpdatePullRequestRequest {
                url: None,
                number: None,
                status: None,
                merged_at: None,
                merge_commit_sha: None,
                target_branch_name: None,
                workspace_id: None,
            }),
            now,
        ) == (PullRequest { updated_at: now, ..p }),
{
}

/// Repeating an update at the same time changes nothing more.
pub proof fn law_pull_request_update_idempotent(
    p: PullRequest,
    req: UpdatePullRequestRequest,
    now: String,
)
    ensures
        pull_request_after_update(pull_request_after_update(p, req, now), req, now)
            == pull_request_after_update(p, req, now),
{
}

} // verus!
