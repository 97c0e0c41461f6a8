use vstd::prelude::*;

use super::{patch, patched};
use crate::clock::{is_millis_utc_text, mutation_timestamp};
use crate::ids::{resolve_record_id, resolves_record_id};

verus! {

/// The color of a project created without one.
pub const DEFAULT_PROJECT_COLOR: &'static str = "#6366f1";

/// A board of an organization; `issue_counter` numbers its issues.
#[derive(Clone, Debug, PartialEq, Eq)]
pub struct Project {
    pub id: String,
    pub organization_id: String,
    pub name: String,
    pub color: String,
    pub issue_counter: i64,
    pub created_at: String,
    pub updated_at: String,
}

#[derive(Debug)]
pub struct CreateProjectRequest {
    pub id: Option<String>,
    pub organization_id: String,
    pub name: String,
    pub color: Option<String>,
}

#[derive(Debug)]
pub struct UpdateProjectRequest {
    pub name: Option<String>,
    pub color: Option<String>,
}

/// The project to insert for a create request: the requested or a fresh id,
/// the default color unless given, no issues counted yet, created now.
pub fn new_project(req: CreateProjectRequest) -> (p: Project)
    ensures
        resolves_record_id(req.id, p.id),
        p.organization_id == req.organization_id,
        p.name == req.name,
        req.color matches Some(c) ==> p.color == c,
        req.color is None ==> p.color@ == DEFAULT_PROJECT_COLOR@,
        p.issue_counter == 0,
        p.updated_at == p.created_at,
        is_millis_utc_text(p.created_at@),
{
    let id = resolve_record_id(req.id);
    let color = match req.color {
        Some(c) => c,
        None => String::from_str(DEFAULT_PROJECT_COLOR),
    };
    let now = mutation_timestamp();
    let updated_at = now.clone();
    Project {
        id,
        organization_id: req.organization_id,
        name: req.name,
        color,
        issue_counter: 0,
        created_at: now,
        updated_at,
    }
}

/// A project after an update at time `now`: each given field replaces the
/// stored one, and the update time becomes `now`.
pub open spec fn project_after_update(p: Project, req: UpdateProjectRequest, now: String) -> Project {
    Project { name: patched(req.name, p.name), color: patched(req.color, p.color), updated_at: now, ..p }
}

/// An update replaces exactly the fields it gives: each field the request
/// gives becomes the request's value, each field it leaves out keeps the
/// stored value, and the record's identity never changes, while the update time becomes `now`.
pub proof fn law_project_update_replaces_given_fields(p: Project, req: UpdateProjectRequest, now: String, r: Project)
    requires
        r == project_after_update(p, req, now),
    ensures
        req.name matches Some(v) ==> r.name == v,
        req.name is None ==> r.name == p.name,
        req.color matches Some(v) ==> r.color == v,
        req.color is None ==> r.color == p.color,
        r.id == p.id,
        r.organization_id == p.organization_id,
        r.issue_counter == p.issue_counter,
        r.created_at == p.created_at,
        r.updated_at == now,
{
}

/// The project to store for an update of `existing`, updated now.
pub fn updated_project(existing: Project, req: UpdateProjectRequest) -> (p: Project)
    ensures
        p == project_after_update(existing, req, p.updated_at),
        is_millis_utc_text(p.updated_at@),
        req.name matches Some(v) ==> p.name == v,
        req.name is None ==> p.name == existing.name,
        req.color matches Some(v) ==> p.color == v,
        req.color is None ==> p.color == existing.color,
{
    let now = mutation_timestamp();
    Project {
        id: existing.id,
        organization_id: existing.organization_id,
        name: patch(req.name, existing.name),
        color: patch(req.color, existing.color),
        issue_counter: existing.issue_counter,
        created_at: existing.created_at,
        updated_at: now,
    }
}

/// An update that gives no field changes only the update time.
pub proof fn law_project_empty_update(p: Project, now: String)
    ensures
        project_after_update(p, (UpdateProjectRequest { name: None, color: None }), now) == (
        Project { updated_at: now, ..p }),
{
}

/// Repeating an update at the same time changes nothing more.
pub proof fn law_project_update_idempotent(p: Project, req: UpdateProjectRequest, now: String)
    ensures
        project_after_update(project_after_update(p, req, now), req, now) == project_after_update(
            p,
            req,
            now,
        ),
{
}

} // verus!
