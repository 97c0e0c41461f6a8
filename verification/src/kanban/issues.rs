use vstd::prelude::*;
use vstd::string::*;

use super::{patch, patch_opt, patched, patched_opt, RouteStatus};
use crate::clock::{is_millis_utc_text, mutation_timestamp};
use crate::ids::{resolve_record_id, resolves_record_id};
use crate::json::{empty_object_text, extension_metadata_text, metadata_text_of};

verus! {

/// The prefix of an issue's simple id when its project's organization is not
/// found.
pub const FALLBACK_ISSUE_PREFIX: &'static str = "ISS";

/// An issue of a project. The sort keys are floating-point numbers, held here
/// by their IEEE 754 bit patterns (`f64::to_bits`), which this library only
/// stores and copies.
#[derive(Clone, Debug, PartialEq, Eq)]
pub struct Issue {
    pub id: String,
    pub project_id: String,
    pub status_id: String,
    pub issue_number: i64,
    pub simple_id: String,
    pub title: String,
    pub description: Option<String>,
    pub priority: Option<String>,
    pub start_date: Option<String>,
    pub target_date: Option<String>,
    pub completed_at: Option<String>,
    pub sort_order: u64,
    pub parent_issue_id: Option<String>,
    pub parent_issue_sort_order: Option<u64>,
    pub extension_metadata: Option<String>,
    pub creator_user_id: Option<String>,
    pub created_at: String,
    pub updated_at: String,
}

#[derive(Debug)]
pub struct CreateIssueRequest {
    pub id: Option<String>,
    pub project_id: String,
    pub status_id: String,
    pub title: String,
    pub description: Option<String>,
    pub priority: Option<String>,
    pub start_date: Option<String>,
    pub target_date: Option<String>,
    pub completed_at: Option<String>,
    pub sort_order: Option<u64>,
    pub parent_issue_id: Option<String>,
    pub parent_issue_sort_order: Option<u64>,
    pub extension_metadata: Option<serde_json::Value>,
    pub creator_user_id: Option<String>,
}

#[derive(Debug)]
pub struct UpdateIssueRequest {
    pub status_id: Option<String>,
    pub title: Option<String>,
    pub description: Option<String>,
    pub priority: Option<String>,
    pub start_date: Option<String>,
    pub target_date: Option<String>,
    pub completed_at: Option<String>,
    pub sort_order: Option<u64>,
    pub parent_issue_id: Option<String>,
    pub parent_issue_sort_order: Option<u64>,
    pub extension_metadata: Option<serde_json::Value>,
}

#[derive(Debug)]
pub struct BulkUpdateIssuesRequest {
    pub updates: Vec<BulkUpdateIssueItem>,
}

#[derive(Debug)]
pub struct BulkUpdateIssueItem {
    pub id: String,
    pub status_id: Option<String>,
    pub title: Option<String>,
    pub description: Option<String>,
    pub priority: Option<String>,
    pub sort_order: Option<u64>,
    pub parent_issue_id: Option<String>,
    pub parent_issue_sort_order: Option<u64>,
    pub completed_at: Option<String>,
}

/// The decimal digits of `n`.
pub open spec fn decimal_digits(n: nat) -> Seq<char>
    decreases n,
{
    if n < 10 {
        seq![(48 + n) as char]
    } else {
        decimal_digits(n / 10).push((48 + n % 10) as char)
    }
}

/// The decimal text of `n`: its digits, after a `-` when it is negative.
pub open spec fn decimal_text(n: int) -> Seq<char> {
    if n < 0 {
        seq!['-'] + decimal_digits((-n) as nat)
    } else {
        decimal_digits(n as nat)
    }
}

/// Calls `ToString::to_string` on an `i64`, whose `Display` writes the
/// number in decimal with a leading `-` when negative.
#[verifier::external_body]
fn i64_text(n: i64) -> (s: String)
    ensures
        s@ == decimal_text(n as int),
{
    n.to_string()
}

/// The simple id of an issue: its organization's prefix (or `ISS` when none
/// is found), `-`, and its number.
pub open spec fn simple_id_text(prefix: Option<Seq<char>>, issue_number: i64) -> Seq<char> {
    let head = match prefix {
        Some(p) => p,
        None => FALLBACK_ISSUE_PREFIX@,
    };
    head + seq!['-'] + decimal_text(issue_number as int)
}

/// The number that a sequence of decimal digits denotes.
pub open spec fn digits_value(d: Seq<char>) -> int
    decreases d.len(),
{
    if d.len() == 0 {
        0
    } else {
        digits_value(d.drop_last()) * 10 + (d.last() as int - 48)
    }
}

/// The decimal text of a number reads back as that number: its digits are
/// `0` to `9`, denote the number's magnitude, and start with `0` only for
/// zero itself; a `-` comes first exactly when the number is negative.
pub proof fn law_decimal_text_reads_back(n: int)
    ensures
        ({
            let t = decimal_text(n);
            let d = if n < 0 {
                t.drop_first()
            } else {
                t
            };
            &&& t.len() >= 1
            &&& (n < 0) == (t[0] == '-')
            &&& d.len() >= 1
            &&& forall|i: int| 0 <= i < d.len() ==> '0' <= #[trigger] d[i] <= '9'
            &&& digits_value(d) == if n < 0 {
                -n
            } else {
                n
            }
            &&& d[0] == '0' ==> n == 0
        }),
{
    let m: nat = if n < 0 {
        (-n) as nat
    } else {
        n as nat
    };
    lemma_decimal_digits(m);
    if n < 0 {
        assert((seq!['-'] + decimal_digits(m)).drop_first() =~= decimal_digits(m));
    }
}

proof fn lemma_decimal_digits(m: nat)
    ensures
        decimal_digits(m).len() >= 1,
        forall|i: int| 0 <= i < decimal_digits(m).len() ==> '0' <= #[trigger] decimal_digits(m)[i] <= '9',
        digits_value(decimal_digits(m)) == m,
        decimal_digits(m)[0] == '0' ==> m == 0,
    decreases m,
{
    if m >= 10 {
        lemma_decimal_digits(m / 10);
        let d = decimal_digits(m);
        assert(d.drop_last() =~= decimal_digits(m / 10));
        assert(d[0] == decimal_digits(m / 10)[0]);
        assert forall|i: int| 0 <= i < d.len() implies '0' <= #[trigger] d[i] <= '9' by {
            if i < d.len() - 1 {
                assert(d[i] == decimal_digits(m / 10)[i]);
            }
        }
    } else {
        assert(digits_value(decimal_digits(m).drop_last()) == 0);
    }
}

/// A simple id is the prefix (`ISS` when there is none), then `-`, then the
/// issue's number in decimal.
pub proof fn law_simple_id_is_prefix_dash_number(prefix: Option<Seq<char>>, issue_number: i64)
    ensures
        ({
            let head = match prefix {
                Some(p) => p,
                None => seq!['I', 'S', 'S'],
            };
            let t = simple_id_text(prefix, issue_number);
            &&& t.take(head.len() as int) == head
            &&& t[head.len() as int] == '-'
            &&& t.skip(head.len() + 1int) == decimal_text(issue_number as int)
        }),
{
    reveal_strlit("ISS");
    let head = match prefix {
        Some(p) => p,
        None => seq!['I', 'S', 'S'],
    };
    let t = simple_id_text(prefix, issue_number);
    assert(head =~= match prefix {
        Some(p) => p,
        None => FALLBACK_ISSUE_PREFIX@,
    });
    assert(t.take(head.len() as int) =~= head);
    assert(t.skip(head.len() + 1int) =~= decimal_text(issue_number as int));
}

/// Writes the simple id of an issue, such as `ISS-7`.
pub fn simple_id(prefix: Option<String>, issue_number: i64) -> (s: String)
    ensures
        s@ == simple_id_text(
            match prefix {
                Some(p) => Some(p@),
                None => None,
            },
            issue_number,
        ),
{
    let mut s = match prefix {
        Some(p) => p,
        None => String::from_str(FALLBACK_ISSUE_PREFIX),
    };
    s.append("-");
    let digits = i64_text(issue_number);
    s.append(digits.as_str());
    proof {
        reveal_strlit("-");
    }
    s
}

/// The issue to insert for a create request, numbered `issue_number` in its
/// project whose organization has prefix `prefix`: the requested or a fresh
/// id, sort order 0 unless given, the metadata as JSON text (`{}` when none
/// is given), created now.
pub fn new_issue(req: CreateIssueRequest, issue_number: i64, prefix: Option<String>) -> (i: Issue)
    ensures
        resolves_record_id(req.id, i.id),
        i.project_id == req.project_id,
        i.status_id == req.status_id,
        i.issue_number == issue_number,
        i.simple_id@ == simple_id_text(
            match prefix {
                Some(p) => Some(p@),
                None => None,
            },
            issue_number,
        ),
        i.title == req.title,
        i.description == req.description,
        i.priority == req.priority,
        i.start_date == req.start_date,
        i.target_date == req.target_date,
        i.completed_at == req.completed_at,
        i.sort_order == patched(req.sort_order, 0u64),
        i.parent_issue_id == req.parent_issue_id,
        i.parent_issue_sort_order == req.parent_issue_sort_order,
        i.extension_metadata is Some,
        req.extension_metadata is None ==> i.extension_metadata->0@ == empty_object_text(),
        req.extension_metadata matches Some(v) ==> i.extension_metadata->0@ == metadata_text_of(v),
        i.creator_user_id == req.creator_user_id,
        i.updated_at == i.created_at,
        is_millis_utc_text(i.created_at@),
{
    let id = resolve_record_id(req.id);
    let now = mutation_timestamp();
    let updated_at = now.clone();
    let metadata = match req.extension_metadata {
        Some(v) => extension_metadata_text(&v),
        None => {
            let s = String::from_str("{}");
            proof {
                reveal_strlit("{}");
            }
            s
        },
    };
    Issue {
        id,
        project_id: req.project_id,
        status_id: req.status_id,
        issue_number,
        simple_id: simple_id(prefix, issue_number),
        title: req.title,
        description: req.description,
        priority: req.priority,
        start_date: req.start_date,
        target_date: req.target_date,
        completed_at: req.completed_at,
        sort_order: patch(req.sort_order, 0),
        parent_issue_id: req.parent_issue_id,
        parent_issue_sort_order: req.parent_issue_sort_order,
        extension_metadata: Some(metadata),
        creator_user_id: req.creator_user_id,
        created_at: now,
        updated_at,
    }
}

/// An issue after an update at time `now` whose metadata, when the update
/// gives any, serialises to `metadata`: each given field replaces the stored
/// one, and the update time becomes `now`.
pub open spec fn issue_after_update(
    i: Issue,
    req: UpdateIssueRequest,
    metadata: Option<String>,
    now: String,
) -> Issue {
    Issue {
        status_id: patched(req.status_id, i.status_id),
        title: patched(req.title, i.title),
        description: patched_opt(req.description, i.description),
        priority: patched_opt(req.priority, i.priority),
        start_date: patched_opt(req.start_date, i.start_date),
        target_date: patched_opt(req.target_date, i.target_date),
        completed_at: patched_opt(req.completed_at, i.completed_at),
        sort_order: patched(req.sort_order, i.sort_order),
        parent_issue_id: patched_opt(req.parent_issue_id, i.parent_issue_id),
        parent_issue_sort_order: patched_opt(req.parent_issue_sort_order, i.parent_issue_sort_order),
        extension_metadata: patched_opt(metadata, i.extension_metadata),
        updated_at: now,
        ..i
    }
}

/// The issue to store for an update of `existing`, updated now; given
/// metadata is stored as its JSON text.
pub fn updated_issue(existing: Issue, req: UpdateIssueRequest) -> (i: Issue)
    ensures
        req.extension_metadata is None ==> i == issue_after_update(
            existing,
            req,
            None,
            i.updated_at,
        ),
        req.extension_metadata matches Some(v) ==> {
            &&& i.extension_metadata is Some
            &&& i.extension_metadata->0@ == metadata_text_of(v)
            &&& i == issue_after_update(existing, req, i.extension_metadata, i.updated_at)
        },
        is_millis_utc_text(i.updated_at@),
        req.status_id matches Some(v) ==> i.status_id == v,
        req.status_id is None ==> i.status_id == existing.status_id,
        req.title matches Some(v) ==> i.title == v,
        req.title is None ==> i.title == existing.title,
        req.description matches Some(v) ==> i.description == Some(v),
        req.description is None ==> i.description == existing.description,
        req.priority matches Some(v) ==> i.priority == Some(v),
        req.priority is None ==> i.priority == existing.priority,
        req.start_date matches Some(v) ==> i.start_date == Some(v),
        req.start_date is None ==> i.start_date == existing.start_date,
        req.target_date matches Some(v) ==> i.target_date == Some(v),
        req.target_date is None ==> i.target_date == existing.target_date,
        req.completed_at matches Some(v) ==> i.completed_at == Some(v),
        req.completed_at is None ==> i.completed_at == existing.completed_at,
        req.sort_order matches Some(v) ==> i.sort_order == v,
        req.sort_order is None ==> i.sort_order == existing.sort_order,
        req.parent_issue_id matches Some(v) ==> i.parent_issue_id == Some(v),
        req.parent_issue_id is None ==> i.parent_issue_id == existing.parent_issue_id,
        req.parent_issue_sort_order matches Some(v) ==> i.parent_issue_sort_order == Some(v),
        req.parent_issue_sort_order is None ==> i.parent_issue_sort_order == existing.parent_issue_sort_order,
{
    let now = mutation_timestamp();
    let metadata = match req.extension_metadata {
        Some(v) => Some(extension_metadata_text(&v)),
        None => None,
    };
    Issue {
        id: existing.id,
        project_id: existing.project_id,
        status_id: patch(req.status_id, existing.status_id),
        issue_number: existing.issue_number,
        simple_id: existing.simple_id,
        title: patch(req.title, existing.title),
        description: patch_opt(req.description, existing.description),
        priority: patch_opt(req.priority, existing.priority),
        start_date: patch_opt(req.start_date, existing.start_date),
        target_date: patch_opt(req.target_date, existing.target_date),
        completed_at: patch_opt(req.completed_at, existing.completed_at),
        sort_order: patch(req.sort_order, existing.sort_order),
        parent_issue_id: patch_opt(req.parent_issue_id, existing.parent_issue_id),
        parent_issue_sort_order: patch_opt(
            req.parent_issue_sort_order,
            existing.parent_issue_sort_order,
        ),
        extension_metadata: patch_opt(metadata, existing.extension_metadata),
        creator_user_id: existing.creator_user_id,
        created_at: existing.created_at,
        updated_at: now,
    }
}

/// An issue after one item of a bulk update at time `now`: each field the
/// item gives replaces the stored one, and the update time becomes `now`.
pub open spec fn issue_after_bulk_item(i: Issue, item: BulkUpdateIssueItem, now: String) -> Issue {
    Issue {
        status_id: patched(item.status_id, i.status_id),
        title: patched(item.title, i.title),
        description: patched_opt(item.description, i.description),
        priority: patched_opt(item.priority, i.priority),
        sort_order: patched(item.sort_order, i.sort_order),
        parent_issue_id: patched_opt(item.parent_issue_id, i.parent_issue_id),
        parent_issue_sort_order: patched_opt(item.parent_issue_sort_order, i.parent_issue_sort_order),
        completed_at: patched_opt(item.completed_at, i.completed_at),
        updated_at: now,
        ..i
    }
}

/// One item of a bulk update at time `now`: 404 when no issue has the item's
/// id (which aborts the whole bulk update), else the issue it updates.
pub fn bulk_updated_issue(existing: Option<Issue>, item: BulkUpdateIssueItem, now: String) -> (r:
    Result<Issue, RouteStatus>)
    ensures
        existing is None ==> r == Err::<Issue, RouteStatus>(RouteStatus::NotFound),
        existing matches Some(e) ==> r == Ok::<Issue, RouteStatus>(
            issue_after_bulk_item(e, item, now),
        ),
        existing is Some ==> r is Ok,
        item.status_id matches Some(v) ==> (r matches Ok(x) ==> x.status_id == v),
        existing matches Some(e) ==> (item.status_id is None ==> (r matches Ok(x) ==> x.status_id == e.status_id)),
        item.title matches Some(v) ==> (r matches Ok(x) ==> x.title == v),
        existing matches Some(e) ==> (item.title is None ==> (r matches Ok(x) ==> x.title == e.title)),
        item.description matches Some(v) ==> (r matches Ok(x) ==> x.description == Some(v)),
        existing matches Some(e) ==> (item.description is None ==> (r matches Ok(x) ==> x.description == e.description)),
        item.priority matches Some(v) ==> (r matches Ok(x) ==> x.priority == Some(v)),
        existing matches Some(e) ==> (item.priority is None ==> (r matches Ok(x) ==> x.priority == e.priority)),
        item.sort_order matches Some(v) ==> (r matches Ok(x) ==> x.sort_order == v),
        existing matches Some(e) ==> (item.sort_order is None ==> (r matches Ok(x) ==> x.sort_order == e.sort_order)),
        item.parent_issue_id matches Some(v) ==> (r matches Ok(x) ==> x.parent_issue_id == Some(v)),
        existing matches Some(e) ==> (item.parent_issue_id is None ==> (r matches Ok(x) ==> x.parent_issue_id == e.parent_issue_id)),
        item.parent_issue_sort_order matches Some(v) ==> (r matches Ok(x) ==> x.parent_issue_sort_order == Some(v)),
        existing matches Some(e) ==> (item.parent_issue_sort_order is None ==> (r matches Ok(x) ==> x.parent_issue_sort_order == e.parent_issue_sort_order)),
        item.completed_at matches Some(v) ==> (r matches Ok(x) ==> x.completed_at == Some(v)),
        existing matches Some(e) ==> (item.completed_at is None ==> (r matches Ok(x) ==> x.completed_at == e.completed_at)),
{
    match existing {
        None => Err(RouteStatus::NotFound),
        Some(e) => Ok(
            Issue {
                id: e.id,
                project_id: e.project_id,
                status_id: patch(item.status_id, e.status_id),
                issue_number: e.issue_number,
                simple_id: e.simple_id,
                title: patch(item.title, e.title),
                description: patch_opt(item.description, e.description),
                priority: patch_opt(item.priority, e.priority),
                start_date: e.start_date,
                target_date: e.target_date,
                completed_at: patch_opt(item.completed_at, e.completed_at),
                sort_order: patch(item.sort_order, e.sort_order),
                parent_issue_id: patch_opt(item.parent_issue_id, e.parent_issue_id),
                parent_issue_sort_order: patch_opt(
                    item.parent_issue_sort_order,
                    e.parent_issue_sort_order,
                ),
                extension_metadata: e.extension_metadata,
                creator_user_id: e.creator_user_id,
                created_at: e.created_at,
                updated_at: now,
            },
        ),
    }
}

/// An update replaces exactly the fields it gives: each field the request
/// gives becomes the request's value, each field it leaves out keeps the
/// stored value, the identity and creation of the issue never change, and
/// the update time becomes `now`.
pub proof fn law_issue_update_replaces_given_fields(
    i: Issue,
    req: UpdateIssueRequest,
    metadata: Option<String>,
    now: String,
    r: Issue,
)
    requires
        r == issue_after_update(i, req, metadata, now),
    ensures
        req.status_id matches Some(v) ==> r.status_id == v,
        req.status_id is None ==> r.status_id == i.status_id,
        req.title matches Some(v) ==> r.title == v,
        req.title is None ==> r.title == i.title,
        req.description matches Some(v) ==> r.description == Some(v),
        req.description is None ==> r.description == i.description,
        req.priority matches Some(v) ==> r.priority == Some(v),
        req.priority is None ==> r.priority == i.priority,
        req.start_date matches Some(v) ==> r.start_date == Some(v),
        req.start_date is None ==> r.start_date == i.start_date,
        req.target_date matches Some(v) ==> r.target_date == Some(v),
        req.target_date is None ==> r.target_date == i.target_date,
        req.completed_at matches Some(v) ==> r.completed_at == Some(v),
        req.completed_at is None ==> r.completed_at == i.completed_at,
        req.sort_order matches Some(v) ==> r.sort_order == v,
        req.sort_order is None ==> r.sort_order == i.sort_order,
        req.parent_issue_id matches Some(v) ==> r.parent_issue_id == Some(v),
        req.parent_issue_id is None ==> r.parent_issue_id == i.parent_issue_id,
        req.parent_issue_sort_order matches Some(v) ==> r.parent_issue_sort_order == Some(v),
        req.parent_issue_sort_order is None ==> r.parent_issue_sort_order == i.parent_issue_sort_order,
        r.id == i.id,
        r.project_id == i.project_id,
        r.issue_number == i.issue_number,
        r.simple_id == i.simple_id,
        r.creator_user_id == i.creator_user_id,
        r.created_at == i.created_at,
        metadata matches Some(m) ==> r.extension_metadata == Some(m),
        metadata is None ==> r.extension_metadata == i.extension_metadata,
        r.updated_at == now,
{
}

/// A bulk item replaces exactly the fields it gives: each field the item
/// gives becomes the item's value (a new status moves the card to that
/// column, a new sort order reorders it), each field it leaves out keeps the
/// stored value, and the update time becomes `now`.
pub proof fn law_issue_bulk_item_replaces_given_fields(
    i: Issue,
    item: BulkUpdateIssueItem,
    now: String,
    r: Issue,
)
    requires
        r == issue_after_bulk_item(i, item, now),
    ensures
        item.status_id matches Some(v) ==> r.status_id == v,
        item.status_id is None ==> r.status_id == i.status_id,
        item.title matches Some(v) ==> r.title == v,
        item.title is None ==> r.title == i.title,
        item.description matches Some(v) ==> r.description == Some(v),
        item.description is None ==> r.description == i.description,
        item.priority matches Some(v) ==> r.priority == Some(v),
        item.priority is None ==> r.priority == i.priority,
        item.sort_order matches Some(v) ==> r.sort_order == v,
        item.sort_order is None ==> r.sort_order == i.sort_order,
        item.parent_issue_id matches Some(v) ==> r.parent_issue_id == Some(v),
        item.parent_issue_id is None ==> r.parent_issue_id == i.parent_issue_id,
        item.parent_issue_sort_order matches Some(v) ==> r.parent_issue_sort_order == Some(v),
        item.parent_issue_sort_order is None ==> r.parent_issue_sort_order == i.parent_issue_sort_order,
        item.completed_at matches Some(v) ==> r.completed_at == Some(v),
        item.completed_at is None ==> r.completed_at == i.completed_at,
        r.id == i.id,
        r.project_id == i.project_id,
        r.issue_number == i.issue_number,
        r.simple_id == i.simple_id,
        r.start_date == i.start_date,
        r.target_date == i.target_date,
        r.creator_user_id == i.creator_user_id,
        r.created_at == i.created_at,
        r.extension_metadata == i.extension_metadata,
        r.updated_at == now,
{
}

/// An update that gives no field changes only the update time.
pub proof fn law_issue_empty_update(i: Issue, now: String)
    ensures
        issue_after_update(
            i,
            (UpdateIssueRequest {
                status_id: None,
                title: None,
                description: None,
                priority: None,
                start_date: None,
                target_date: None,
                completed_at: None,
                sort_order: None,
                parent_issue_id: None,
                parent_issue_sort_order: None,
                extension_metadata: None,
            }),
            None,
            now,
        ) == (Issue { updated_at: now, ..i }),
{
}

/// Repeating an update at the same time changes nothing more.
pub proof fn law_issue_update_idempotent(
    i: Issue,
    req: UpdateIssueRequest,
    metadata: Option<String>,
    now: String,
)
    ensures
        issue_after_update(issue_after_update(i, req, metadata, now), req, metadata, now)
            == issue_after_update(i, req, metadata, now),
{
}

/// Repeating a bulk item at the same time changes nothing more.
pub proof fn law_issue_bulk_item_idempotent(i: Issue, item: BulkUpdateIssueItem, now: String)
    ensures
        issue_after_bulk_item(issue_after_bulk_item(i, item, now), item, now)
            == issue_after_bulk_item(i, item, now),
{
}

} // verus!
