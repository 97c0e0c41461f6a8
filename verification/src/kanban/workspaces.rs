use vstd::prelude::*;

use super::{patch, patch_opt, patched, patched_opt};
use crate::clock::{is_millis_utc_text, mutation_timestamp};
use crate::ids::{resolve_record_id, resolves_record_id};

verus! {

/// A workspace as the kanban board shows it.
#[derive(Clone, Debug, PartialEq, Eq)]
pub struct KanbanWorkspace {
    pub id: String,
    pub project_id: String,
    pub owner_user_id: String,
    pub issue_id: Option<String>,
    pub local_workspace_id: Option<String>,
    pub name: Option<String>,
    pub archived: bool,
    pub files_changed: Option<i64>,
    pub lines_added: Option<i64>,
    pub lines_removed: Option<i64>,
    pub created_at: String,
    pub updated_at: String,
}

#[derive(Debug)]
pub struct CreateKanbanWorkspaceRequest {
    pub id: Option<String>,
    pub project_id: String,
    pub owner_user_id: String,
    pub issue_id: Option<String>,
    pub local_workspace_id: Option<String>,
    pub name: Option<String>,
    pub archived: Option<bool>,
    pub files_changed: Option<i64>,
    pub lines_added: Option<i64>,
    pub lines_removed: Option<i64>,
}

#[derive(Debug)]
pub struct UpdateKanbanWorkspaceRequest {
    pub issue_id: Option<String>,
    pub name: Option<String>,
    pub archived: Option<bool>,
    pub files_changed: Option<i64>,
    pub lines_added: Option<i64>,
    pub lines_removed: Option<i64>,
}

/// The workspace to insert for a create request: the requested or a fresh
/// id, not archived unless asked, created now.
pub fn new_kanban_workspace(req: CreateKanbanWorkspaceRequest) -> (w: KanbanWorkspace)
    ensures
        resolves_record_id(req.id, w.id),
        w.project_id == req.project_id,
        w.owner_user_id == req.owner_user_id,
        w.issue_id == req.issue_id,
        w.local_workspace_id == req.local_workspace_id,
        w.name == req.name,
        w.archived == patched(req.archived, false),
        w.files_changed == req.files_changed,
        w.lines_added == req.lines_added,
        w.lines_removed == req.lines_removed,
        w.updated_at == w.created_at,
        is_millis_utc_text(w.created_at@),
{
    let id = resolve_record_id(req.id);
    let now = mutation_timestamp();
    let updated_at = now.clone();
    KanbanWorkspace {
        id,
        project_id: req.project_id,
        owner_user_id: req.owner_user_id,
        issue_id: req.issue_id,
        local_workspace_id: req.local_workspace_id,
        name: req.name,
        archived: patch(req.archived, false),
        files_changed: req.files_changed,
        lines_added: req.lines_added,
        lines_removed: req.lines_removed,
        created_at: now,
        updated_at,
    }
}

/// A workspace after an update at time `now`: each given field replaces the
/// stored one, and the update time becomes `now`.
pub open spec fn kanban_workspace_after_update(
    w: KanbanWorkspace,
    req: UpdateKanbanWorkspaceRequest,
    now: String,
) -> KanbanWorkspace {
    KanbanWorkspace {
        issue_id: patched_opt(req.issue_id, w.issue_id),
        name: patched_opt(req.name, w.name),
        archived: patched(req.archived, w.archived),
        files_changed: patched_opt(req.files_changed, w.files_changed),
        lines_added: patched_opt(req.lines_added, w.lines_added),
        lines_removed: patched_opt(req.lines_removed, w.lines_removed),
        updated_at: now,
        ..w
    }
}

/// An update replaces exactly the fields it gives: each field the request
/// gives becomes the request's value, each field it leaves out keeps the
/// stored value, and the record's identity never changes, while the update time becomes `now`.
pub proof fn law_kanban_workspace_update_replaces_given_fields(w: KanbanWorkspace, req: UpdateKanbanWorkspaceRequest, now: String, r: KanbanWorkspace)
    requires
        r == kanban_workspace_after_update(w, req, now),
    ensures
        req.issue_id matches Some(v) ==> r.issue_id == Some(v),
        req.issue_id is None ==> r.issue_id == w.issue_id,
        req.name matches Some(v) ==> r.name == Some(v),
        req.name is None ==> r.name == w.name,
        req.archived matches Some(v) ==> r.archived == v,
        req.archived is None ==> r.archived == w.archived,
        req.files_changed matches Some(v) ==> r.files_changed == Some(v),
        req.files_changed is None ==> r.files_changed == w.files_changed,
        req.lines_added matches Some(v) ==> r.lines_added == Some(v),
        req.lines_added is None ==> r.lines_added == w.lines_added,
        req.lines_removed matches Some(v) ==> r.lines_removed == Some(v),
        req.lines_removed is None ==> r.lines_removed == w.lines_removed,
        r.id == w.id,
        r.project_id == w.project_id,
        r.owner_user_id == w.owner_user_id,
        r.local_workspace_id == w.local_workspace_id,
        r.created_at == w.created_at,
        r.updated_at == now,
{
}

/// The workspace to store for an update of `existing`, updated now.
pub fn updated_kanban_workspace(existing: KanbanWorkspace, req: UpdateKanbanWorkspaceRequest) -> (w:
    KanbanWorkspace)
    ensures
        w == kanban_workspace_after_update(existing, req, w.updated_at),
        is_millis_utc_text(w.updated_at@),
        req.issue_id matches Some(v) ==> w.issue_id == Some(v),
        req.issue_id is None ==> w.issue_id == existing.issue_id,
        req.name matches Some(v) ==> w.name == Some(v),
        req.name is None ==> w.name == existing.name,
        req.archived matches Some(v) ==> w.archived == v,
        req.archived is None ==> w.archived == existing.archived,
        req.files_changed matches Some(v) ==> w.files_changed == Some(v),
        req.files_changed is None ==> w.files_changed == existing.files_changed,
        req.lines_added matches Some(v) ==> w.lines_added == Some(v),
        req.lines_added is None ==> w.lines_added == existing.lines_added,
        req.lines_removed matches Some(v) ==> w.lines_removed == Some(v),
        req.lines_removed is None ==> w.lines_removed == existing.lines_removed,
{
    let now = mutation_timestamp();
    KanbanWorkspace {
        id: existing.id,
        project_id: existing.project_id,
        owner_user_id: existing.owner_user_id,
        issue_id: patch_opt(req.issue_id, existing.issue_id),
        local_workspace_id: existing.local_workspace_id,
        name: patch_opt(req.name, existing.name),
        archived: patch(req.archived, existing.archived),
        files_changed: patch_opt(req.files_changed, existing.files_changed),
        lines_added: patch_opt(req.lines_added, existing.lines_added),
        lines_removed: patch_opt(req.lines_removed, existing.lines_removed),
        created_at: existing.created_at,
        updated_at: now,
    }
}

/// An update that gives no field changes only the update time.
pub proof fn law_kanban_workspace_empty_update(w: KanbanWorkspace, now: String)
    ensures
        kanban_workspace_after_update(
            w,
            (UpdateKanbanWorkspaceRequest {
                issue_id: None,
                name: None,
                archived: None,
                files_changed: None,
                lines_added: None,
                lines_removed: None,
            }),
            now,
        ) == (KanbanWorkspace { updated_at: now, ..w }),
{
}

/// Repeating an update at the same time changes nothing more.
pub proof fn law_kanban_workspace_update_idempotent(
    w: KanbanWorkspace,
    req: UpdateKanbanWorkspaceRequest,
    now: String,
)
    ensures
        kanban_workspace_after_update(kanban_workspace_after_update(w, req, now), req, now)
            == kanban_workspace_after_update(w, req, now),
{
}

} // verus!
