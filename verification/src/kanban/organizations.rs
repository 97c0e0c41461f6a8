use vstd::prelude::*;

use super::{patch, patched};
use crate::clock::{is_millis_utc_text, mutation_timestamp};
use crate::ids::{resolve_record_id, resolves_record_id};

verus! {

/// The prefix of the simple ids of an organization's issues, unless chosen.
pub const DEFAULT_ISSUE_PREFIX: &'static str = "ISS";

/// An organization: it owns projects, and its prefix begins its issues' ids.
#[derive(Clone, Debug, PartialEq, Eq)]
pub struct Organization {
    pub id: String,
    pub name: String,
    pub slug: String,
    pub is_personal: bool,
    pub issue_prefix: String,
    pub created_at: String,
    pub updated_at: String,
}

#[derive(Debug)]
pub struct CreateOrganizationRequest {
    pub id: Option<String>,
    pub name: String,
    pub slug: String,
    pub is_personal: Option<bool>,
    pub issue_prefix: Option<String>,
}

/// The organization to insert for a create request: the requested or a
/// fresh id, not personal and with the default issue prefix unless given,
/// created now.
pub fn new_organization(req: CreateOrganizationRequest) -> (o: Organization)
    ensures
        resolves_record_id(req.id, o.id),
        o.name == req.name,
        o.slug == req.slug,
        o.is_personal == patched(req.is_personal, false),
        req.issue_prefix matches Some(p) ==> o.issue_prefix == p,
        req.issue_prefix is None ==> o.issue_prefix@ == DEFAULT_ISSUE_PREFIX@,
        o.updated_at == o.created_at,
        is_millis_utc_text(o.created_at@),
{
    let id = resolve_record_id(req.id);
    let issue_prefix = match req.issue_prefix {
        Some(p) => p,
        None => String::from_str(DEFAULT_ISSUE_PREFIX),
    };
    let now = mutation_timestamp();
    let updated_at = now.clone();
    Organization {
        id,
        name: req.name,
        slug: req.slug,
        is_personal: patch(req.is_personal, false),
        issue_prefix,
        created_at: now,
        updated_at,
    }
}

} // verus!
