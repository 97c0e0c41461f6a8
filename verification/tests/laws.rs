use vibe_kanban_core::kanban::links::{updated_issue_comment, IssueComment, UpdateIssueCommentRequest};
use vibe_kanban_core::kanban::notifications::{updated_notification, Notification, UpdateNotificationRequest};
use vibe_kanban_core::kanban::project_statuses::{
    updated_project_status, ProjectStatus, UpdateProjectStatusRequest,
};
use vibe_kanban_core::kanban::tags::{updated_tag, Tag, UpdateTagRequest};
use vibe_kanban_core::kanban::{patch, patch_opt};
use vibe_kanban_core::workspace::Workspace;

fn tag() -> Tag {
    Tag { id: "t".into(), project_id: "p".into(), name: "bug".into(), color: "#111111".into() }
}

#[test]
fn absent_fields_are_kept() {
    assert_eq!(patch(None, 5), 5);
    assert_eq!(patch_opt::<u8>(None, Some(5)), Some(5));
    assert_eq!(patch_opt::<u8>(None, None), None);
    assert_eq!(patch(Some(7), 5), 7);
    assert_eq!(patch_opt(Some(7), None), Some(7));
}

#[test]
fn patching_twice_is_patching_once() {
    let once = patch_opt(Some(3), Some(1));
    assert_eq!(patch_opt(Some(3), once), once);
    let t1 = updated_tag(tag(), UpdateTagRequest { name: Some("feature".into()), color: None });
    let t2 = updated_tag(t1.clone(), UpdateTagRequest { name: Some("feature".into()), color: None });
    assert_eq!(t1, t2);
}

#[test]
fn later_patch_wins() {
    let t1 = updated_tag(tag(), UpdateTagRequest { name: Some("a".into()), color: Some("#222222".into()) });
    let t2 = updated_tag(t1, UpdateTagRequest { name: Some("b".into()), color: None });
    assert_eq!(t2, Tag { name: "b".into(), color: "#222222".into(), ..tag() });
}

#[test]
fn empty_status_update_changes_nothing() {
    let s = ProjectStatus {
        id: "s".into(),
        project_id: "p".into(),
        name: "Todo".into(),
        color: "#6b7280".into(),
        sort_order: 2,
        hidden: true,
        created_at: "2024-01-01T00:00:00.000Z".into(),
    };
    let u = updated_project_status(
        s.clone(),
        UpdateProjectStatusRequest { name: None, color: None, sort_order: None, hidden: None },
    );
    assert_eq!(u, s);
}

#[test]
fn notification_update_repeated_is_stable() {
    let n = Notification {
        id: "n".into(),
        organization_id: "o".into(),
        user_id: "u".into(),
        notification_type: "t".into(),
        payload: "{}".into(),
        issue_id: Some("i".into()),
        comment_id: None,
        seen: false,
        dismissed_at: None,
        created_at: "c".into(),
    };
    let once = updated_notification(n, UpdateNotificationRequest { seen: Some(true), dismissed_at: Some("d".into()) });
    let twice = updated_notification(
        once.clone(),
        UpdateNotificationRequest { seen: Some(true), dismissed_at: Some("d".into()) },
    );
    assert_eq!(once, twice);
}

#[test]
fn empty_comment_update_changes_only_time() {
    let c = IssueComment {
        id: "c".into(),
        issue_id: "i".into(),
        author_id: Some("u".into()),
        parent_id: None,
        message: "hello".into(),
        created_at: "2024-01-01T00:00:00.000Z".into(),
        updated_at: "2024-01-01T00:00:00.000Z".into(),
    };
    let u = updated_issue_comment(c.clone(), UpdateIssueCommentRequest { message: None });
    assert_eq!(IssueComment { updated_at: c.updated_at.clone(), ..u }, c);
}

#[test]
fn derived_names_never_exceed_limit() {
    let prompts = [
        "a".repeat(61),
        "word ".repeat(30),
        "  short  ".to_string(),
        "x y".repeat(40),
        "ü".repeat(100),
    ];
    for p in prompts.iter() {
        let name = Workspace::truncate_to_name(p, 60);
        let n = name.chars().count();
        assert!(n <= 60, "{:?} -> {:?}", p, name);
        let trimmed = p.trim();
        if trimmed.chars().count() <= 60 {
            assert_eq!(name, trimmed);
        } else {
            assert!(name.ends_with("..."));
            let kept = &name[..name.len() - 3];
            assert!(trimmed.starts_with(kept));
            assert!(kept.chars().count() <= 57);
        }
    }
    // The limit counts the ellipsis too: a long word keeps 57 characters.
    assert_eq!(Workspace::truncate_to_name(&"a".repeat(61), 60).chars().count(), 60);
    let spaced = format!("{} bb", "a".repeat(59));
    assert_eq!(Workspace::truncate_to_name(&spaced, 60), format!("{}...", "a".repeat(57)));
}
