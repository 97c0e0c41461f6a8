use std::collections::{HashMap, HashSet};

use vibe_kanban_core::summary::{
    assemble_summaries, diff_stat_targets, running_process_ids, DiffStats,
    ExecutionProcessStatus, LatestProcessInfo, MergeStatus, WorkspaceSummary,
};
use vibe_kanban_core::time::Timestamp;
use vibe_kanban_core::workspace::Workspace;

fn workspace(id: u128, container: Option<&str>) -> Workspace {
    Workspace {
        id,
        task_id: 1,
        container_ref: container.map(|c| c.to_string()),
        branch: "b".to_string(),
        agent_working_dir: None,
        setup_completed_at: None,
        created_at: Timestamp { secs: 0, nanos: 0 },
        updated_at: Timestamp { secs: 0, nanos: 0 },
        archived: false,
        pinned: false,
        name: None,
    }
}

fn info(ep: u128, session: u128, status: ExecutionProcessStatus) -> LatestProcessInfo {
    LatestProcessInfo {
        execution_process_id: ep,
        session_id: session,
        status,
        completed_at: None,
    }
}

#[test]
fn running_ids_are_those_of_running_processes() {
    let mut latest = HashMap::new();
    latest.insert(1u128, info(100, 10, ExecutionProcessStatus::Running));
    latest.insert(2u128, info(200, 20, ExecutionProcessStatus::Completed));
    latest.insert(3u128, info(300, 30, ExecutionProcessStatus::Running));
    let mut ids = running_process_ids(&latest);
    ids.sort();
    assert_eq!(ids, vec![100, 300]);
    assert!(running_process_ids(&HashMap::new()).is_empty());
}

#[test]
fn diff_targets_are_workspaces_with_containers() {
    let ws = vec![workspace(1, Some("/a")), workspace(2, None), workspace(3, Some("/c"))];
    assert_eq!(diff_stat_targets(&ws), vec![0, 2]);
}

#[test]
fn summaries_join_the_facts() {
    let ws = vec![workspace(1, Some("/a")), workspace(2, None)];
    let mut latest = HashMap::new();
    let done = Timestamp { secs: 1_700_000_000, nanos: 0 };
    latest.insert(
        1u128,
        LatestProcessInfo {
            execution_process_id: 100,
            session_id: 10,
            status: ExecutionProcessStatus::Running,
            completed_at: Some(done),
        },
    );
    let pending: HashSet<u128> = [100u128].into_iter().collect();
    let mut stats = HashMap::new();
    stats.insert(1u128, DiffStats { files_changed: 3, lines_added: 40, lines_removed: 2 });
    let dev: HashSet<u128> = [2u128].into_iter().collect();
    let unseen: HashSet<u128> = [1u128].into_iter().collect();
    let mut prs = HashMap::new();
    prs.insert(2u128, MergeStatus::Merged);

    let r = assemble_summaries(&ws, &latest, &pending, &stats, &dev, &unseen, &prs);
    assert_eq!(
        r.summaries,
        vec![
            WorkspaceSummary {
                workspace_id: 1,
                latest_session_id: Some(10),
                has_pending_approval: true,
                files_changed: Some(3),
                lines_added: Some(40),
                lines_removed: Some(2),
                latest_process_completed_at: Some(done),
                latest_process_status: Some(ExecutionProcessStatus::Running),
                has_running_dev_server: false,
                has_unseen_turns: true,
                pr_status: None,
            },
            WorkspaceSummary {
                workspace_id: 2,
                latest_session_id: None,
                has_pending_approval: false,
                files_changed: None,
                lines_added: None,
                lines_removed: None,
                latest_process_completed_at: None,
                latest_process_status: None,
                has_running_dev_server: true,
                has_unseen_turns: false,
                pr_status: Some(MergeStatus::Merged),
            },
        ]
    );
}

#[test]
fn no_workspaces_no_summaries() {
    let r = assemble_summaries(
        &vec![],
        &HashMap::new(),
        &HashSet::new(),
        &HashMap::new(),
        &HashSet::new(),
        &HashSet::new(),
        &HashMap::new(),
    );
    assert!(r.summaries.is_empty());
}
