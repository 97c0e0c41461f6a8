use vstd::prelude::*;

use super::{patch, patched, RouteStatus};
use crate::clock::{is_millis_utc_text, mutation_timestamp};
use crate::ids::{resolve_record_id, resolves_record_id};

verus! {

/// The color of a project status created without one.
pub const DEFAULT_STATUS_COLOR: &'static str = "#6b7280";

/// A column of a project's board.
#[derive(Clone, Debug, PartialEq, Eq)]
pub struct ProjectStatus {
    pub id: String,
    pub project_id: String,
    pub name: String,
    pub color: String,
    pub sort_order: i64,
    pub hidden: bool,
    pub created_at: String,
}

#[derive(Debug)]
pub struct CreateProjectStatusRequest {
    pub id: Option<String>,
    pub project_id: String,
    pub name: String,
    pub color: Option<String>,
    pub sort_order: Option<i64>,
    pub hidden: Option<bool>,
}

#[derive(Debug)]
pub struct UpdateProjectStatusRequest {
    pub name: Option<String>,
    pub color: Option<String>,
    pub sort_order: Option<i64>,
    pub hidden: Option<bool>,
}

#[derive(Debug)]
pub struct BulkUpdateProjectStatusesRequest {
    pub updates: Vec<BulkUpdateProjectStatusItem>,
}

#[derive(Debug)]
pub struct BulkUpdateProjectStatusItem {
    pub id: String,
    pub name: Option<String>,
    pub color: Option<String>,
    pub sort_order: Option<i64>,
    pub hidden: Option<bool>,
}

/// The status to insert for a create request: the requested or a fresh id,
/// the default color, sort order 0 and shown, unless given; created now.
pub fn new_project_status(req: CreateProjectStatusRequest) -> (s: ProjectStatus)
    ensures
        resolves_record_id(req.id, s.id),
        s.project_id == req.project_id,
        s.name == req.name,
        req.color matches Some(c) ==> s.color == c,
        req.color is None ==> s.color@ == DEFAULT_STATUS_COLOR@,
        s.sort_order == patched(req.sort_order, 0i64),
        s.hidden == patched(req.hidden, false),
        is_millis_utc_text(s.created_at@),
{
    let id = resolve_record_id(req.id);
    let color = match req.color {
        Some(c) => c,
        None => String::from_str(DEFAULT_STATUS_COLOR),
    };
    let now = mutation_timestamp();
    ProjectStatus {
        id,
        project_id: req.project_id,
        name: req.name,
        color,
        sort_order: patch(req.sort_order, 0),
        hidden: patch(req.hidden, false),
        created_at: now,
    }
}

/// A status after an update: each given field replaces the stored one.
pub open spec fn status_after_update(s: ProjectStatus, req: UpdateProjectStatusRequest) -> ProjectStatus {
    ProjectStatus {
        name: patched(req.name, s.name),
        color: patched(req.color, s.color),
        sort_order: patched(req.sort_order, s.sort_order),
        hidden: patched(req.hidden, s.hidden),
        ..s
    }
}

/// An update replaces exactly the fields it gives: each field the request
/// gives becomes the request's value, each field it leaves out keeps the
/// stored value, and the record's identity never changes.
pub proof fn law_status_update_replaces_given_fields(s: ProjectStatus, req: UpdateProjectStatusRequest, r: ProjectStatus)
    requires
        r == status_after_update(s, req),
    ensures
        req.name matches Some(v) ==> r.name == v,
        req.name is None ==> r.name == s.name,
        req.color matches Some(v) ==> r.color == v,
        req.color is None ==> r.color == s.color,
        req.sort_order matches Some(v) ==> r.sort_order == v,
        req.sort_order is None ==> r.sort_order == s.sort_order,
        req.hidden matches Some(v) ==> r.hidden == v,
        req.hidden is None ==> r.hidden == s.hidden,
        r.id == s.id,
        r.project_id == s.project_id,
        r.created_at == s.created_at,
{
}

/// The status to store for an update of `existing`.
pub fn updated_project_status(existing: ProjectStatus, req: UpdateProjectStatusRequest) -> (s:
    ProjectStatus)
    ensures
        s == status_after_update(existing, req),
        req.name matches Some(v) ==> s.name == v,
        req.name is None ==> s.name == existing.name,
        req.color matches Some(v) ==> s.color == v,
        req.color is None ==> s.color == existing.color,
        req.sort_order matches Some(v) ==> s.sort_order == v,
        req.sort_order is None ==> s.sort_order == existing.sort_order,
        req.hidden matches Some(v) ==> s.hidden == v,
        req.hidden is None ==> s.hidden == existing.hidden,
{
    ProjectStatus {
        id: existing.id,
        project_id: existing.project_id,
        name: patch(req.name, existing.name),
        color: patch(req.color, existing.color),
        sort_order: patch(req.sort_order, existing.sort_order),
        hidden: patch(req.hidden, existing.hidden),
        created_at: existing.created_at,
    }
}

/// The update that one item of a bulk request makes.
pub open spec fn bulk_item_update(item: BulkUpdateProjectStatusItem) -> UpdateProjectStatusRequest {
    UpdateProjectStatusRequest {
        name: item.name,
        color: item.color,
        sort_order: item.sort_order,
        hidden: item.hidden,
    }
}

/// One item of a bulk update: 404 when no status has the item's id (which
/// aborts the whole bulk update), else the status updated by the item.
pub fn bulk_updated_project_status(
    existing: Option<ProjectStatus>,
    item: BulkUpdateProjectStatusItem,
) -> (r: Result<ProjectStatus, RouteStatus>)
    ensures
        existing is None ==> r == Err::<ProjectStatus, RouteStatus>(RouteStatus::NotFound),
        existing matches Some(e) ==> r == Ok::<ProjectStatus, RouteStatus>(
            status_after_update(e, bulk_item_update(item)),
        ),
        existing is Some ==> r is Ok,
        item.name matches Some(v) ==> (r matches Ok(x) ==> x.name == v),
        existing matches Some(e) ==> (item.name is None ==> (r matches Ok(x) ==> x.name == e.name)),
        item.color matches Some(v) ==> (r matches Ok(x) ==> x.color == v),
        existing matches Some(e) ==> (item.color is None ==> (r matches Ok(x) ==> x.color == e.color)),
        item.sort_order matches Some(v) ==> (r matches Ok(x) ==> x.sort_order == v),
        existing matches Some(e) ==> (item.sort_order is None ==> (r matches Ok(x) ==> x.sort_order == e.sort_order)),
        item.hidden matches Some(v) ==> (r matches Ok(x) ==> x.hidden == v),
        existing matches Some(e) ==> (item.hidden is None ==> (r matches Ok(x) ==> x.hidden == e.hidden)),
        existing matches Some(e) ==> (r matches Ok(x) ==> x.id == e.id),
        existing matches Some(e) ==> (r matches Ok(x) ==> x.project_id == e.project_id),
        existing matches Some(e) ==> (r matches Ok(x) ==> x.created_at == e.created_at),
{
    match existing {
        None => Err(RouteStatus::NotFound),
        Some(e) => {
            let req = UpdateProjectStatusRequest {
                name: item.name,
                color: item.color,
                sort_order: item.sort_order,
                hidden: item.hidden,
            };
            Ok(updated_project_status(e, req))
        },
    }
}

/// An update that gives no field leaves the status as it was.
pub proof fn law_status_empty_update(s: ProjectStatus)
    ensures
        status_after_update(
            s,
            (UpdateProjectStatusRequest { name: None, color: None, sort_order: None, hidden: None }),
        ) == s,
{
}

/// Repeating an update changes nothing more.
pub proof fn law_status_update_idempotent(s: ProjectStatus, req: UpdateProjectStatusRequest)
    ensures
        status_after_update(status_after_update(s, req), req) == status_after_update(s, req),
{
}

} // verus!
