use vstd::prelude::*;

use super::{patch, patched};
use crate::ids::{resolve_record_id, resolves_record_id};

verus! {

/// The color of a tag or project status created without one.
pub const DEFAULT_TAG_COLOR: &'static str = "#6b7280";

/// A label that issues of a project can carry.
#[derive(Clone, Debug, PartialEq, Eq)]
pub struct Tag {
    pub id: String,
    pub project_id: String,
    pub name: String,
    pub color: String,
}

#[derive(Debug)]
pub struct CreateTagRequest {
    pub id: Option<String>,
    pub project_id: String,
    pub name: String,
    pub color: Option<String>,
}

#[derive(Debug)]
pub struct UpdateTagRequest {
    pub name: Option<String>,
    pub color: Option<String>,
}

/// The tag to insert for a create request: the requested or a fresh id, and
/// the default color when none is given.
pub fn new_tag(req: CreateTagRequest) -> (t: Tag)
    ensures
        resolves_record_id(req.id, t.id),
        t.project_id == req.project_id,
        t.name == req.name,
        req.color matches Some(c) ==> t.color == c,
        req.color is None ==> t.color@ == DEFAULT_TAG_COLOR@,
{
    let id = resolve_record_id(req.id);
    let color = match req.color {
        Some(c) => c,
        None => String::from_str(DEFAULT_TAG_COLOR),
    };
    Tag { id, project_id: req.project_id, name: req.name, color }
}

/// A tag after an update: each given field replaces the stored one.
pub open spec fn tag_after_update(t: Tag, req: UpdateTagRequest) -> Tag {
    Tag { name: patched(req.name, t.name), color: patched(req.color, t.color), ..t }
}

/// An update replaces exactly the fields it gives: each field the request
/// gives becomes the request's value, each field it leaves out keeps the
/// stored value, and the record's identity never changes.
pub proof fn law_tag_update_replaces_given_fields(t: Tag, req: UpdateTagRequest, r: Tag)
    requires
        r == tag_after_update(t, req),
    ensures
        req.name matches Some(v) ==> r.name == v,
        req.name is None ==> r.name == t.name,
        req.color matches Some(v) ==> r.color == v,
        req.color is None ==> r.color == t.color,
        r.id == t.id,
        r.project_id == t.project_id,
{
}

/// The tag to store for an update of `existing`.
pub fn updated_tag(existing: Tag, req: UpdateTagRequest) -> (t: Tag)
    ensures
        t == tag_after_update(existing, req),
        req.name matches Some(v) ==> t.name == v,
        req.name is None ==> t.name == existing.name,
        req.color matches Some(v) ==> t.color == v,
        req.color is None ==> t.color == existing.color,
{
    Tag {
        id: existing.id,
        project_id: existing.project_id,
        name: patch(req.name, existing.name),
        color: patch(req.color, existing.color),
    }
}

/// An update that gives no field leaves the tag as it was.
pub proof fn law_tag_empty_update(t: Tag)
    ensures
        tag_after_update(t, (UpdateTagRequest { name: None, color: None })) == t,
{
}

/// Repeating an update changes nothing more.
pub proof fn law_tag_update_idempotent(t: Tag, req: UpdateTagRequest)
    ensures
        tag_after_update(tag_after_update(t, req), req) == tag_after_update(t, req),
{
}

} // verus!
