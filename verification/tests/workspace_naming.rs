use std::collections::HashMap;

use vibe_kanban_core::naming::chars_of;
use vibe_kanban_core::time::Timestamp;
use vibe_kanban_core::workspace::{
    candidates_with_parent, container_ref_candidates, first_resolved, prompts_by_workspace, unnamed_workspace_ids,
    with_derived_names, ContainerInfo, Workspace, WorkspaceWithStatus, WorkspaceWithStatusRow,
    WORKSPACE_NAME_MAX_LEN,
};

fn workspace(id: u128, name: Option<&str>) -> Workspace {
    Workspace {
        id,
        task_id: 7,
        container_ref: None,
        branch: "vk/branch".to_string(),
        agent_working_dir: None,
        setup_completed_at: None,
        created_at: Timestamp { secs: 1_700_000_000, nanos: 0 },
        updated_at: Timestamp { secs: 1_700_000_100, nanos: 5 },
        archived: false,
        pinned: false,
        name: name.map(|n| n.to_string()),
    }
}

fn with_status(id: u128, name: Option<&str>) -> WorkspaceWithStatus {
    WorkspaceWithStatus { workspace: workspace(id, name), is_running: false, is_errored: false }
}

#[test]
fn truncate_keeps_short_prompt_trimmed() {
    assert_eq!(Workspace::truncate_to_name("  fix the login bug \n", 60), "fix the login bug");
}

#[test]
fn truncate_cuts_at_last_space() {
    assert_eq!(Workspace::truncate_to_name("hello world foo", 9), "hello...");
    assert_eq!(Workspace::truncate_to_name("hello world foo bar", 16), "hello world...");
    assert_eq!(Workspace::truncate_to_name("hello world foo", 13), "hello...");
}

#[test]
fn truncate_without_space_cuts_hard() {
    assert_eq!(Workspace::truncate_to_name("abcdefgh", 6), "abc...");
    assert_eq!(Workspace::truncate_to_name("abcdefgh", 3), "...");
}

#[test]
fn truncate_exact_length_is_unchanged() {
    let prompt = "a".repeat(60);
    assert_eq!(Workspace::truncate_to_name(&prompt, 60), prompt);
    let longer = "a".repeat(61);
    assert_eq!(Workspace::truncate_to_name(&longer, 60), format!("{}...", "a".repeat(57)));
}

#[test]
fn truncate_empty_and_blank_prompts() {
    assert_eq!(Workspace::truncate_to_name("", 60), "");
    assert_eq!(Workspace::truncate_to_name(" \t\n ", 60), "");
    assert_eq!(Workspace::truncate_to_name("x", 0), "...");
}

#[test]
fn truncate_counts_characters_not_bytes() {
    assert_eq!(Workspace::truncate_to_name("héllo wörld", 11), "héllo wörld");
    assert_eq!(Workspace::truncate_to_name("héllo wörld", 8), "héllo...");
}

#[test]
fn truncate_trims_unicode_white_space() {
    assert_eq!(Workspace::truncate_to_name("\u{3000}abc\u{a0}\u{2009}", 60), "abc");
    // A character outside White_Space stays.
    assert_eq!(Workspace::truncate_to_name("\u{200b}abc", 60), "\u{200b}abc");
}

#[test]
fn chars_of_splits_into_characters() {
    assert_eq!(chars_of("aé😀"), vec!['a', 'é', '😀']);
}

#[test]
fn status_flags_read_from_row() {
    let row = WorkspaceWithStatusRow { workspace: workspace(1, None), is_running: 1, is_errored: 0 };
    let ws = WorkspaceWithStatus::from_row(row);
    assert!(ws.is_running);
    assert!(!ws.is_errored);
    let row = WorkspaceWithStatusRow { workspace: workspace(2, None), is_running: 0, is_errored: 7 };
    let ws = WorkspaceWithStatus::from_row(row);
    assert!(!ws.is_running);
    assert!(ws.is_errored);
}

#[test]
fn deref_reaches_the_workspace() {
    let ws = with_status(9, Some("named"));
    assert_eq!(ws.id, 9);
    assert_eq!(ws.name.as_deref(), Some("named"));
}

#[test]
fn unnamed_ids_in_order() {
    let list = vec![with_status(1, None), with_status(2, Some("x")), with_status(3, None)];
    assert_eq!(unnamed_workspace_ids(&list), vec![1, 3]);
}

#[test]
fn prompts_map_later_row_wins() {
    let rows = vec![(1u128, "first".to_string()), (2, "two".to_string()), (1, "again".to_string())];
    let m = prompts_by_workspace(rows);
    assert_eq!(m.len(), 2);
    assert_eq!(m.get(&1).map(|s| s.as_str()), Some("again"));
    assert_eq!(m.get(&2).map(|s| s.as_str()), Some("two"));
}

#[test]
fn derived_names_only_for_unnamed_with_prompt() {
    let list = vec![
        with_status(1, None),
        with_status(2, Some("kept")),
        with_status(3, None),
        with_status(4, None),
    ];
    let mut prompts = HashMap::new();
    prompts.insert(1u128, "  Add dark mode to the settings page  ".to_string());
    prompts.insert(2u128, "ignored because named".to_string());
    prompts.insert(4u128, "x".repeat(70));
    let (named, updates) = with_derived_names(list, &prompts);
    assert_eq!(named[0].workspace.name.as_deref(), Some("Add dark mode to the settings page"));
    assert_eq!(named[1].workspace.name.as_deref(), Some("kept"));
    assert_eq!(named[2].workspace.name, None);
    let long_name = format!("{}...", "x".repeat(WORKSPACE_NAME_MAX_LEN - 3));
    assert_eq!(long_name.chars().count(), WORKSPACE_NAME_MAX_LEN);
    assert_eq!(named[3].workspace.name.as_deref(), Some(long_name.as_str()));
    assert_eq!(
        updates,
        vec![(1u128, "Add dark mode to the settings page".to_string()), (4u128, long_name)]
    );
    assert_eq!(named[3].workspace.branch, "vk/branch");
}

#[test]
fn first_prompt_names_single_workspace() {
    let (ws, stored) =
        with_status(5, None).with_first_prompt_name(Some("Refactor parser module".to_string()));
    assert_eq!(ws.workspace.name.as_deref(), Some("Refactor parser module"));
    assert_eq!(stored.as_deref(), Some("Refactor parser module"));

    let (ws, stored) = with_status(5, Some("mine")).with_first_prompt_name(Some("p".to_string()));
    assert_eq!(ws.workspace.name.as_deref(), Some("mine"));
    assert_eq!(stored, None);

    let (ws, stored) = with_status(5, None).with_first_prompt_name(None);
    assert_eq!(ws.workspace.name, None);
    assert_eq!(stored, None);
}

#[test]
fn container_candidates_try_parent_after_path() {
    let c = container_ref_candidates("/tmp/worktrees/ws-1/repo");
    assert_eq!(c, vec!["/tmp/worktrees/ws-1/repo".to_string(), "/tmp/worktrees/ws-1".to_string()]);
    let c = container_ref_candidates("/");
    assert_eq!(c, vec!["/".to_string()]);
    assert_eq!(container_ref_candidates(""), vec!["".to_string()]);
    assert_eq!(container_ref_candidates("repo"), vec!["repo".to_string(), "".to_string()]);
}

#[test]
fn first_resolved_prefers_exact_match() {
    let a = ContainerInfo { workspace_id: 1, task_id: 2, project_id: 3 };
    let b = ContainerInfo { workspace_id: 4, task_id: 5, project_id: 6 };
    assert_eq!(first_resolved(&vec![Some(a), Some(b)]), Some(a));
    assert_eq!(first_resolved(&vec![None, Some(b)]), Some(b));
    assert_eq!(first_resolved(&vec![None, None]), None);
}

#[test]
fn listing_names_fit_max_len() {
    let list = vec![with_status(1, None), with_status(2, None), with_status(3, None)];
    let mut prompts = HashMap::new();
    prompts.insert(1u128, format!("{} bb", "a".repeat(59)));
    prompts.insert(2u128, "word ".repeat(40));
    prompts.insert(3u128, "é".repeat(200));
    let (_, updates) = with_derived_names(list, &prompts);
    assert_eq!(updates.len(), 3);
    for (_, name) in &updates {
        assert!(name.chars().count() <= WORKSPACE_NAME_MAX_LEN, "{}", name);
        assert!(name.ends_with("..."));
    }
    assert_eq!(updates[0].1, format!("{}...", "a".repeat(57)));
}

#[test]
fn truncate_below_ellipsis_length_keeps_max_len() {
    assert_eq!(Workspace::truncate_to_name("ééé", 2), "éé...");
    assert_eq!(Workspace::truncate_to_name("a b c", 2), "a...");
    assert_eq!(Workspace::truncate_to_name("abc", 1), "a...");
    assert_eq!(Workspace::truncate_to_name("ab", 2), "ab");
}

#[test]
fn single_component_path_tries_empty_parent() {
    assert_eq!(container_ref_candidates("ws-1"), vec!["ws-1".to_string(), "".to_string()]);
    assert_eq!(
        candidates_with_parent("/a/b", Some("/a".to_string())),
        vec!["/a/b".to_string(), "/a".to_string()]
    );
    assert_eq!(candidates_with_parent("/", None), vec!["/".to_string()]);
}

#[test]
fn trimming_agrees_with_std_white_space() {
    for u in 0u32..0x3100 {
        let Some(c) = char::from_u32(u) else { continue };
        let prompt = format!("{c}a{c}");
        let expected = if c.is_whitespace() { "a".to_string() } else { prompt.clone() };
        assert_eq!(Workspace::truncate_to_name(&prompt, 60), expected, "U+{:04X}", u);
    }
}
