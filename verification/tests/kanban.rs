use vibe_kanban_core::clock::mutation_timestamp;
use vibe_kanban_core::ids::resolve_record_id;
use vibe_kanban_core::json::{extension_metadata_text, text_or_empty_object};
use vibe_kanban_core::kanban::issues::{
    bulk_updated_issue, new_issue, simple_id, updated_issue, BulkUpdateIssueItem,
    CreateIssueRequest, Issue, UpdateIssueRequest,
};
use vibe_kanban_core::kanban::links::{
    new_issue_assignee, new_issue_comment, new_issue_follower, updated_issue_comment,
    CreateIssueAssigneeRequest, CreateIssueCommentRequest, CreateIssueFollowerRequest,
    UpdateIssueCommentRequest,
};
use vibe_kanban_core::kanban::notifications::{
    updated_notification, Notification, UpdateNotificationRequest,
};
use vibe_kanban_core::kanban::organizations::{new_organization, CreateOrganizationRequest};
use vibe_kanban_core::kanban::project_statuses::{
    bulk_updated_project_status, new_project_status, updated_project_status,
    BulkUpdateProjectStatusItem, CreateProjectStatusRequest, ProjectStatus,
    UpdateProjectStatusRequest,
};
use vibe_kanban_core::kanban::projects::{new_project, updated_project, CreateProjectRequest, UpdateProjectRequest};
use vibe_kanban_core::kanban::pull_requests::{
    new_pull_request, updated_pull_request, CreatePullRequestRequest, UpdatePullRequestRequest,
};
use vibe_kanban_core::kanban::tags::{new_tag, updated_tag, CreateTagRequest, Tag, UpdateTagRequest};
use vibe_kanban_core::kanban::workspaces::{
    new_kanban_workspace, updated_kanban_workspace, CreateKanbanWorkspaceRequest,
    UpdateKanbanWorkspaceRequest,
};
use vibe_kanban_core::kanban::{deletion_status, mutation_response, require_found, RouteStatus};

fn is_hyphenated_v4(s: &str) -> bool {
    let cs: Vec<char> = s.chars().collect();
    cs.len() == 36
        && cs.iter().enumerate().all(|(i, c)| {
            if [8, 13, 18, 23].contains(&i) {
                *c == '-'
            } else {
                c.is_ascii_hexdigit() && !c.is_ascii_uppercase()
            }
        })
        && cs[14] == '4'
        && "89ab".contains(cs[19])
}

fn issue() -> Issue {
    Issue {
        id: "i1".to_string(),
        project_id: "p1".to_string(),
        status_id: "todo".to_string(),
        issue_number: 3,
        simple_id: "VK-3".to_string(),
        title: "Old title".to_string(),
        description: Some("desc".to_string()),
        priority: None,
        start_date: None,
        target_date: None,
        completed_at: None,
        sort_order: 1.5f64.to_bits(),
        parent_issue_id: None,
        parent_issue_sort_order: None,
        extension_metadata: Some("{\"a\":1}".to_string()),
        creator_user_id: Some("u1".to_string()),
        created_at: "2024-01-01T00:00:00.000Z".to_string(),
        updated_at: "2024-01-01T00:00:00.000Z".to_string(),
    }
}

fn empty_issue_update() -> UpdateIssueRequest {
    UpdateIssueRequest {
        status_id: None,
        title: None,
        description: None,
        priority: None,
        start_date: None,
        target_date: None,
        completed_at: None,
        sort_order: None,
        parent_issue_id: None,
        parent_issue_sort_order: None,
        extension_metadata: None,
    }
}

#[test]
fn record_ids_are_requested_or_fresh() {
    assert_eq!(resolve_record_id(Some("given".to_string())), "given");
    let a = resolve_record_id(None);
    let b = resolve_record_id(None);
    assert!(is_hyphenated_v4(&a), "{}", a);
    assert!(is_hyphenated_v4(&b), "{}", b);
    assert_ne!(a, b);
}

#[test]
fn timestamps_are_utc_millis() {
    let t = mutation_timestamp();
    assert!(t.ends_with('Z'));
    assert_eq!(t.len(), 24, "{}", t);
    assert_eq!(&t[10..11], "T");
    assert_eq!(&t[19..20], ".");
    let shape = "dddd-dd-ddTdd:dd:dd.dddZ";
    for (c, k) in t.chars().zip(shape.chars()) {
        if k == 'd' {
            assert!(c.is_ascii_digit(), "{}", t);
        } else {
            assert_eq!(c, k, "{}", t);
        }
    }
}

#[test]
fn status_codes() {
    assert_eq!(RouteStatus::NoContent.code(), 204);
    assert_eq!(RouteStatus::NotFound.code(), 404);
    assert_eq!(RouteStatus::InternalServerError.code(), 500);
}

#[test]
fn deletes_answer_by_rows_affected() {
    assert_eq!(deletion_status(0), Err(RouteStatus::NotFound));
    assert_eq!(deletion_status(1), Ok(RouteStatus::NoContent));
    assert_eq!(deletion_status(3), Ok(RouteStatus::NoContent));
}

#[test]
fn lookups_answer_not_found() {
    assert_eq!(require_found::<u8>(None), Err(RouteStatus::NotFound));
    assert_eq!(require_found(Some(5u8)), Ok(5u8));
}

#[test]
fn mutation_responses_carry_txid_one() {
    let r = mutation_response("data".to_string());
    assert_eq!(r.data, "data");
    assert_eq!(r.txid, 1);
}

#[test]
fn tag_defaults_and_updates() {
    let t = new_tag(CreateTagRequest {
        id: Some("t1".to_string()),
        project_id: "p".to_string(),
        name: "bug".to_string(),
        color: None,
    });
    assert_eq!(t, Tag { id: "t1".into(), project_id: "p".into(), name: "bug".into(), color: "#6b7280".into() });
    let t2 = updated_tag(t.clone(), UpdateTagRequest { name: None, color: Some("#ff0000".into()) });
    assert_eq!(t2.name, "bug");
    assert_eq!(t2.color, "#ff0000");
    let t3 = updated_tag(t.clone(), UpdateTagRequest { name: None, color: None });
    assert_eq!(t3, t);
    let t4 = new_tag(CreateTagRequest {
        id: None,
        project_id: "p".to_string(),
        name: "x".to_string(),
        color: Some("#000".to_string()),
    });
    assert!(is_hyphenated_v4(&t4.id));
    assert_eq!(t4.color, "#000");
}

#[test]
fn project_status_defaults_updates_and_bulk() {
    let s = new_project_status(CreateProjectStatusRequest {
        id: Some("s1".into()),
        project_id: "p".into(),
        name: "Todo".into(),
        color: None,
        sort_order: None,
        hidden: None,
    });
    assert_eq!(s.color, "#6b7280");
    assert_eq!(s.sort_order, 0);
    assert!(!s.hidden);
    assert!(s.created_at.ends_with('Z'));
    let u = updated_project_status(
        s.clone(),
        UpdateProjectStatusRequest { name: Some("Doing".into()), color: None, sort_order: Some(4), hidden: None },
    );
    assert_eq!(u, ProjectStatus { name: "Doing".into(), sort_order: 4, ..s.clone() });
    let item = BulkUpdateProjectStatusItem {
        id: "s1".into(),
        name: None,
        color: None,
        sort_order: None,
        hidden: Some(true),
    };
    assert_eq!(bulk_updated_project_status(None, item), Err(RouteStatus::NotFound));
    let item = BulkUpdateProjectStatusItem {
        id: "s1".into(),
        name: None,
        color: None,
        sort_order: None,
        hidden: Some(true),
    };
    assert_eq!(
        bulk_updated_project_status(Some(s.clone()), item),
        Ok(ProjectStatus { hidden: true, ..s })
    );
}

#[test]
fn project_defaults_and_updates() {
    let p = new_project(CreateProjectRequest {
        id: None,
        organization_id: "o".into(),
        name: "Board".into(),
        color: None,
    });
    assert_eq!(p.color, "#6366f1");
    assert_eq!(p.issue_counter, 0);
    assert_eq!(p.created_at, p.updated_at);
    assert!(is_hyphenated_v4(&p.id));
    let q = updated_project(p.clone(), UpdateProjectRequest { name: Some("Renamed".into()), color: None });
    assert_eq!(q.name, "Renamed");
    assert_eq!(q.color, p.color);
    assert_eq!(q.created_at, p.created_at);
    assert!(q.updated_at.ends_with('Z'));
}

#[test]
fn organization_defaults() {
    let o = new_organization(CreateOrganizationRequest {
        id: Some("o1".into()),
        name: "Acme".into(),
        slug: "acme".into(),
        is_personal: None,
        issue_prefix: None,
    });
    assert_eq!(o.issue_prefix, "ISS");
    assert!(!o.is_personal);
    let o = new_organization(CreateOrganizationRequest {
        id: Some("o2".into()),
        name: "Me".into(),
        slug: "me".into(),
        is_personal: Some(true),
        issue_prefix: Some("ME".into()),
    });
    assert_eq!(o.issue_prefix, "ME");
    assert!(o.is_personal);
}

#[test]
fn notification_updates() {
    let n = Notification {
        id: "n".into(),
        organization_id: "o".into(),
        user_id: "u".into(),
        notification_type: "mention".into(),
        payload: "{}".into(),
        issue_id: None,
        comment_id: None,
        seen: false,
        dismissed_at: None,
        created_at: "2024-01-01T00:00:00.000Z".into(),
    };
    let m = updated_notification(n.clone(), UpdateNotificationRequest { seen: Some(true), dismissed_at: None });
    assert!(m.seen);
    assert_eq!(m.dismissed_at, None);
    let k = updated_notification(m.clone(), UpdateNotificationRequest { seen: None, dismissed_at: Some("later".into()) });
    assert!(k.seen);
    assert_eq!(k.dismissed_at.as_deref(), Some("later"));
    assert_eq!(updated_notification(n.clone(), UpdateNotificationRequest { seen: None, dismissed_at: None }), n);
}

#[test]
fn pull_request_defaults_and_updates() {
    let p = new_pull_request(CreatePullRequestRequest {
        id: Some("pr".into()),
        url: "https://x/pull/1".into(),
        number: 1,
        status: None,
        merged_at: None,
        merge_commit_sha: None,
        target_branch_name: "main".into(),
        issue_id: "i".into(),
        workspace_id: None,
    });
    assert_eq!(p.status, "open");
    let q = updated_pull_request(
        p.clone(),
        UpdatePullRequestRequest {
            url: None,
            number: None,
            status: Some("merged".into()),
            merged_at: Some("t".into()),
            merge_commit_sha: None,
            target_branch_name: None,
            workspace_id: None,
        },
    );
    assert_eq!(q.status, "merged");
    assert_eq!(q.merged_at.as_deref(), Some("t"));
    assert_eq!(q.url, p.url);
    assert_eq!(q.issue_id, "i");
}

#[test]
fn kanban_workspace_defaults_and_updates() {
    let w = new_kanban_workspace(CreateKanbanWorkspaceRequest {
        id: Some("w".into()),
        project_id: "p".into(),
        owner_user_id: "u".into(),
        issue_id: None,
        local_workspace_id: None,
        name: None,
        archived: None,
        files_changed: Some(2),
        lines_added: None,
        lines_removed: None,
    });
    assert!(!w.archived);
    assert_eq!(w.files_changed, Some(2));
    let v = updated_kanban_workspace(
        w.clone(),
        UpdateKanbanWorkspaceRequest {
            issue_id: Some("i".into()),
            name: None,
            archived: Some(true),
            files_changed: None,
            lines_added: Some(10),
            lines_removed: None,
        },
    );
    assert!(v.archived);
    assert_eq!(v.issue_id.as_deref(), Some("i"));
    assert_eq!(v.files_changed, Some(2));
    assert_eq!(v.lines_added, Some(10));
}

#[test]
fn link_records() {
    let a = new_issue_assignee(CreateIssueAssigneeRequest { id: None, issue_id: "i".into(), user_id: "u".into() });
    assert!(is_hyphenated_v4(&a.id));
    assert!(a.assigned_at.ends_with('Z'));
    let f = new_issue_follower(CreateIssueFollowerRequest { id: Some("f".into()), issue_id: "i".into(), user_id: "u".into() });
    assert_eq!(f.id, "f");
    let c = new_issue_comment(CreateIssueCommentRequest {
        id: Some("c".into()),
        issue_id: "i".into(),
        author_id: None,
        parent_id: None,
        message: "hi".into(),
    });
    assert_eq!(c.created_at, c.updated_at);
    let d = updated_issue_comment(c.clone(), UpdateIssueCommentRequest { message: Some("edited".into()) });
    assert_eq!(d.message, "edited");
    assert_eq!(d.created_at, c.created_at);
    let e = updated_issue_comment(c.clone(), UpdateIssueCommentRequest { message: None });
    assert_eq!(e.message, "hi");
}

#[test]
fn simple_ids() {
    assert_eq!(simple_id(Some("VK".to_string()), 42), "VK-42");
    assert_eq!(simple_id(None, 7), "ISS-7");
    assert_eq!(simple_id(Some("A".to_string()), 0), "A-0");
    assert_eq!(simple_id(Some("A".to_string()), -12), "A--12");
}

#[test]
fn metadata_text() {
    let v: serde_json::Value = serde_json::from_str("{\"k\": [1, true]}").unwrap();
    assert_eq!(extension_metadata_text(&v), "{\"k\":[1,true]}");
}

#[test]
fn metadata_error_falls_back_to_empty_object() {
    let err = serde_json::from_str::<serde_json::Value>("{").unwrap_err();
    assert_eq!(text_or_empty_object(Err(err)), "{}");
    assert_eq!(text_or_empty_object(Ok("[1]".to_string())), "[1]");
}

#[test]
fn new_issue_fields() {
    let req = CreateIssueRequest {
        id: Some("i9".into()),
        project_id: "p".into(),
        status_id: "todo".into(),
        title: "T".into(),
        description: None,
        priority: Some("high".into()),
        start_date: None,
        target_date: None,
        completed_at: None,
        sort_order: None,
        parent_issue_id: None,
        parent_issue_sort_order: None,
        extension_metadata: None,
        creator_user_id: None,
    };
    let i = new_issue(req, 12, Some("VK".into()));
    assert_eq!(i.simple_id, "VK-12");
    assert_eq!(i.issue_number, 12);
    assert_eq!(i.sort_order, 0.0f64.to_bits());
    assert_eq!(i.extension_metadata.as_deref(), Some("{}"));
    assert_eq!(i.created_at, i.updated_at);
}

#[test]
fn new_issue_stores_metadata_as_json_text() {
    let v: serde_json::Value = serde_json::from_str("{\"b\": {\"c\": null}, \"a\": 2}").unwrap();
    let req = CreateIssueRequest {
        id: None,
        project_id: "p".into(),
        status_id: "todo".into(),
        title: "T".into(),
        description: None,
        priority: None,
        start_date: None,
        target_date: None,
        completed_at: None,
        sort_order: Some(1.5f64.to_bits()),
        parent_issue_id: None,
        parent_issue_sort_order: None,
        extension_metadata: Some(v.clone()),
        creator_user_id: Some("u".into()),
    };
    let i = new_issue(req, 3, None);
    assert_eq!(i.extension_metadata, Some(serde_json::to_string(&v).unwrap()));
    assert_eq!(i.simple_id, "ISS-3");
    assert_eq!(f64::from_bits(i.sort_order), 1.5);
}

#[test]
fn issue_update_stores_given_metadata() {
    let e = issue();
    let mut req = empty_issue_update();
    req.extension_metadata = Some(serde_json::from_str("[1, \"x\"]").unwrap());
    let u = updated_issue(e.clone(), req);
    assert_eq!(u.extension_metadata.as_deref(), Some("[1,\"x\"]"));
    assert_eq!(u.title, e.title);
}

#[test]
fn issue_update_patches_given_fields() {
    let e = issue();
    let mut req = empty_issue_update();
    req.title = Some("New title".into());
    req.priority = Some("low".into());
    req.sort_order = Some(2.5f64.to_bits());
    let u = updated_issue(e.clone(), req);
    assert_eq!(u.title, "New title");
    assert_eq!(u.priority.as_deref(), Some("low"));
    assert_eq!(f64::from_bits(u.sort_order), 2.5);
    assert_eq!(u.description, e.description);
    assert_eq!(u.extension_metadata, e.extension_metadata);
    assert_eq!(u.simple_id, e.simple_id);
    let u = updated_issue(e.clone(), empty_issue_update());
    assert_eq!(Issue { updated_at: e.updated_at.clone(), ..u }, e);
}

#[test]
fn bulk_issue_items() {
    let item = BulkUpdateIssueItem {
        id: "i1".into(),
        status_id: Some("done".into()),
        title: None,
        description: None,
        priority: None,
        sort_order: None,
        parent_issue_id: None,
        parent_issue_sort_order: None,
        completed_at: Some("now".into()),
    };
    assert_eq!(
        bulk_updated_issue(None, item, "2024-02-02T00:00:00.000Z".into()),
        Err(RouteStatus::NotFound)
    );
    let item = BulkUpdateIssueItem {
        id: "i1".into(),
        status_id: Some("done".into()),
        title: None,
        description: None,
        priority: None,
        sort_order: None,
        parent_issue_id: None,
        parent_issue_sort_order: None,
        completed_at: Some("now".into()),
    };
    let e = issue();
    let u = bulk_updated_issue(Some(e.clone()), item, "2024-02-02T00:00:00.000Z".into()).unwrap();
    assert_eq!(
        u,
        Issue {
            status_id: "done".into(),
            completed_at: Some("now".into()),
            updated_at: "2024-02-02T00:00:00.000Z".into(),
            ..e
        }
    );
}
