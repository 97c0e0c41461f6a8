//! The kanban board's records and the decisions of their HTTP handlers.

pub mod issues;
pub mod links;
pub mod notifications;
pub mod organizations;
pub mod project_statuses;
pub mod projects;
pub mod pull_requests;
pub mod tags;
pub mod workspaces;

use vstd::prelude::*;

verus! {

/// The HTTP status of a handler's answer.
#[derive(Clone, Copy, PartialEq, Eq, Structural, Debug)]
pub enum RouteStatus {
    /// 204: the record was deleted.
    NoContent,
    /// 404: no record has the id.
    NotFound,
    /// 500: the database failed.
    InternalServerError,
}

impl RouteStatus {
    /// The numeric HTTP status code.
    pub fn code(self) -> (c: u16)
        ensures
            c == match self {
                RouteStatus::NoContent => 204u16,
                RouteStatus::NotFound => 404u16,
                RouteStatus::InternalServerError => 500u16,
            },
    {
        match self {
            RouteStatus::NoContent => 204,
            RouteStatus::NotFound => 404,
            RouteStatus::InternalServerError => 500,
        }
    }
}

/// The answer to a mutation: the stored record and the transaction id the
/// client waits for (always 1 here).
#[derive(Clone, Debug, PartialEq, Eq)]
pub struct MutationResponse<T> {
    pub data: T,
    pub txid: i64,
}

/// Wraps a stored record as the answer to a mutation.
pub fn mutation_response<T>(data: T) -> (r: MutationResponse<T>)
    ensures
        r.data == data,
        r.txid == 1,
{
    MutationResponse { data, txid: 1 }
}

/// A lookup by id: the record when there is one, else 404.
pub fn require_found<T>(row: Option<T>) -> (r: Result<T, RouteStatus>)
    ensures
        row matches Some(x) ==> r == Ok::<T, RouteStatus>(x),
        row is None ==> r == Err::<T, RouteStatus>(RouteStatus::NotFound),
{
    match row {
        Some(x) => Ok(x),
        None => Err(RouteStatus::NotFound),
    }
}

/// The answer to a delete: 204 when a row went, 404 when none had the id.
pub fn deletion_status(rows_affected: u64) -> (r: Result<RouteStatus, RouteStatus>)
    ensures
        rows_affected == 0 ==> r == Err::<RouteStatus, RouteStatus>(RouteStatus::NotFound),
        rows_affected != 0 ==> r == Ok::<RouteStatus, RouteStatus>(RouteStatus::NoContent),
{
    if rows_affected == 0 {
        Err(RouteStatus::NotFound)
    } else {
        Ok(RouteStatus::NoContent)
    }
}

/// A required field after a patch: the new value when given, else the old.
pub open spec fn patched<T>(p: Option<T>, current: T) -> T {
    match p {
        Some(v) => v,
        None => current,
    }
}

/// An optional field after a patch: the new value when given, else the old
/// one (a patch cannot clear such a field).
pub open spec fn patched_opt<T>(p: Option<T>, current: Option<T>) -> Option<T> {
    match p {
        Some(v) => Some(v),
        None => current,
    }
}

/// Patches a required field.
pub fn patch<T>(p: Option<T>, current: T) -> (r: T)
    ensures
        r == patched(p, current),
        p matches Some(v) ==> r == v,
        p is None ==> r == current,
{
    match p {
        Some(v) => v,
        None => current,
    }
}

/// Patches an optional field.
pub fn patch_opt<T>(p: Option<T>, current: Option<T>) -> (r: Option<T>)
    ensures
        r == patched_opt(p, current),
        p matches Some(v) ==> r == Some(v),
        p is None ==> r == current,
{
    match p {
        Some(v) => Some(v),
        None => current,
    }
}

/// A field that a patch gives takes the given value.
pub proof fn law_given_field_replaced<T>(v: T, current: T, current_opt: Option<T>)
    ensures
        patched(Some(v), current) == v,
        patched_opt(Some(v), current_opt) == Some(v),
{
}

/// A field that a patch leaves out keeps its value.
pub proof fn law_absent_field_kept<T>(current: T, current_opt: Option<T>)
    ensures
        patched(None, current) == current,
        patched_opt(None, current_opt) == current_opt,
{
}

/// Patching a field twice with the same value is patching it once.
pub proof fn law_patch_idempotent<T>(p: Option<T>, current: T, current_opt: Option<T>)
    ensures
        patched(p, patched(p, current)) == patched(p, current),
        patched_opt(p, patched_opt(p, current_opt)) == patched_opt(p, current_opt),
{
}

/// Of two patches applied in turn, the later one's given values win.
pub proof fn law_later_patch_wins<T>(p: Option<T>, q: Option<T>, current: T, current_opt: Option<
    T,
>)
    ensures
        patched(q, patched(p, current)) == patched(patched_opt(q, p), current),
        patched_opt(q, patched_opt(p, current_opt)) == patched_opt(patched_opt(q, p), current_opt),
{
}

} // verus!
