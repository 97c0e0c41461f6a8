use vstd::prelude::*;

use std::collections::{HashMap, HashSet};
use vstd::std_specs::iter::IteratorSpec;

use crate::time::Timestamp;
use crate::workspace::Workspace;

verus! {

/// The state of an execution process.
#[derive(Clone, Copy, PartialEq, Eq, Structural, Debug)]
pub enum ExecutionProcessStatus {
    Running,
    Completed,
    Failed,
    Killed,
}

/// The state of a workspace's pull request.
#[derive(Clone, Copy, PartialEq, Eq, Structural, Debug)]
pub enum MergeStatus {
    Open,
    Merged,
    Closed,
    Unknown,
}

/// The latest execution process of a workspace.
#[derive(Clone, Copy, PartialEq, Eq, Structural, Debug)]
pub struct LatestProcessInfo {
    pub execution_process_id: u128,
    pub session_id: u128,
    pub status: ExecutionProcessStatus,
    pub completed_at: Option<Timestamp>,
}

/// Request for fetching workspace summaries.
#[derive(Clone, Copy, PartialEq, Eq, Structural, Debug)]
pub struct WorkspaceSummaryRequest {
    pub archived: bool,
}

/// Size of a workspace's uncommitted changes.
#[derive(Clone, Copy, PartialEq, Eq, Structural, Debug, Default)]
pub struct DiffStats {
    pub files_changed: usize,
    pub lines_added: usize,
    pub lines_removed: usize,
}

/// Summary info for a single workspace.
#[derive(Clone, Copy, PartialEq, Eq, Structural, Debug)]
pub struct WorkspaceSummary {
    pub workspace_id: u128,
    /// Session ID of the latest execution process
    pub latest_session_id: Option<u128>,
    /// Is a tool approval currently pending?
    pub has_pending_approval: bool,
    /// Number of files with changes
    pub files_changed: Option<usize>,
    /// Total lines added across all files
    pub lines_added: Option<usize>,
    /// Total lines removed across all files
    pub lines_removed: Option<usize>,
    /// When the latest execution process completed
    pub latest_process_completed_at: Option<Timestamp>,
    /// Status of the latest execution process
    pub latest_process_status: Option<ExecutionProcessStatus>,
    /// Is a dev server currently running?
    pub has_running_dev_server: bool,
    /// Does this workspace have unseen coding agent turns?
    pub has_unseen_turns: bool,
    /// PR status for this workspace (if any PR exists)
    pub pr_status: Option<MergeStatus>,
}

/// Response containing summaries for requested workspaces.
#[derive(Clone, Debug, PartialEq, Eq)]
pub struct WorkspaceSummaryResponse {
    pub summaries: Vec<WorkspaceSummary>,
}

/// `x` is the process id of a running latest process in `latest`.
pub open spec fn is_running_process_id(latest: Map<u128, LatestProcessInfo>, x: u128) -> bool {
    exists|v: LatestProcessInfo|
        #![trigger latest.values().contains(v)]
        latest.values().contains(v) && v.status == ExecutionProcessStatus::Running
            && v.execution_process_id == x
}

/// The ids of the latest processes that are running, in no given order.
pub fn running_process_ids(latest: &HashMap<u128, LatestProcessInfo>) -> (ids: Vec<u128>)
    ensures
        forall|x: u128| ids@.contains(x) <==> is_running_process_id(latest@, x),
        forall|x: u128|
            ids@.contains(x) <==> exists|k: u128|
                latest@.contains_key(k) && (#[trigger] latest@[k]).status
                    == ExecutionProcessStatus::Running && latest@[k].execution_process_id == x,
{
    broadcast use vstd::std_specs::hash::group_hash_axioms;

    let mut ids: Vec<u128> = Vec::new();
    let ghost mut seen: Seq<LatestProcessInfo> = Seq::empty();
    let ghost all = vstd::std_specs::hash::spec_values_iter(latest).remaining().unref();
    for info in it: latest.values()
        invariant
            it.seq().unref() == all,
            all.to_set() == latest@.values(),
            seen == it.seq().unref().take(it.index() as int),
            forall|x: u128|
                ids@.contains(x) <==> exists|j: int|
                    0 <= j < seen.len() && (#[trigger] seen[j]).status
                        == ExecutionProcessStatus::Running && seen[j].execution_process_id == x,
    {
        let ghost old_ids = ids@;
        let ghost old_seen = seen;
        proof {
            assert(it.seq().unref().take(it.index() + 1) =~= old_seen.push(*info));
            seen = old_seen.push(*info);
        }
        if info.status == ExecutionProcessStatus::Running {
            ids.push(info.execution_process_id);
        }
        proof {
            assert forall|x: u128|
                ids@.contains(x) implies exists|j: int|
                    0 <= j < seen.len() && (#[trigger] seen[j]).status
                        == ExecutionProcessStatus::Running && seen[j].execution_process_id
                        == x by {
                if old_ids.contains(x) {
                    let j = choose|j: int|
                        0 <= j < old_seen.len() && (#[trigger] old_seen[j]).status
                            == ExecutionProcessStatus::Running && old_seen[j].execution_process_id
                            == x;
                    assert(seen[j] == old_seen[j]);
                } else {
                    assert(seen[old_seen.len() as int] == *info);
                }
            }
            assert forall|x: u128|
                (exists|j: int|
                    0 <= j < seen.len() && (#[trigger] seen[j]).status
                        == ExecutionProcessStatus::Running && seen[j].execution_process_id
                        == x) implies ids@.contains(x) by {
                let j = choose|j: int|
                    0 <= j < seen.len() && (#[trigger] seen[j]).status
                        == ExecutionProcessStatus::Running && seen[j].execution_process_id == x;
                if j < old_seen.len() {
                    assert(old_seen[j] == seen[j]);
                    assert(old_ids.contains(x));
                    let k = choose|k: int| 0 <= k < old_ids.len() && old_ids[k] == x;
                    assert(ids@[k] == x);
                } else {
                    assert(seen[j] == *info);
                    assert(ids@ == old_ids.push(info.execution_process_id));
                    assert(ids@[old_ids.len() as int] == x);
                }
            }
        }
    }
    proof {
        assert(seen =~= all);
        assert forall|x: u128| ids@.contains(x) <==> is_running_process_id(latest@, x) by {
            if ids@.contains(x) {
                let j = choose|j: int|
                    0 <= j < seen.len() && (#[trigger] seen[j]).status
                        == ExecutionProcessStatus::Running && seen[j].execution_process_id == x;
                assert(all.to_set().contains(all[j]));
                assert(latest@.values().contains(seen[j]));
            }
            if is_running_process_id(latest@, x) {
                let v = choose|v: LatestProcessInfo|
                    #![trigger latest@.values().contains(v)]
                    latest@.values().contains(v) && v.status == ExecutionProcessStatus::Running
                        && v.execution_process_id == x;
                assert(all.to_set().contains(v));
                assert(all.contains(v));
                let j = choose|j: int| 0 <= j < all.len() && all[j] == v;
                assert(seen[j] == v);
            }
        }
        assert forall|x: u128|
            is_running_process_id(latest@, x) <==> exists|k: u128|
                latest@.contains_key(k) && (#[trigger] latest@[k]).status
                    == ExecutionProcessStatus::Running && latest@[k].execution_process_id == x by {
            if is_running_process_id(latest@, x) {
                let v = choose|v: LatestProcessInfo|
                    #![trigger latest@.values().contains(v)]
                    latest@.values().contains(v) && v.status == ExecutionProcessStatus::Running
                        && v.execution_process_id == x;
                let k = choose|k: u128| latest@.contains_key(k) && latest@[k] == v;
                assert(latest@.contains_key(k) && latest@[k].status
                    == ExecutionProcessStatus::Running);
            }
            if exists|k: u128|
                latest@.contains_key(k) && (#[trigger] latest@[k]).status
                    == ExecutionProcessStatus::Running && latest@[k].execution_process_id == x {
                let k = choose|k: u128|
                    latest@.contains_key(k) && (#[trigger] latest@[k]).status
                        == ExecutionProcessStatus::Running && latest@[k].execution_process_id == x;
                assert(latest@.values().contains(latest@[k]));
            }
        }
    }
    ids
}

/// The positions, in order, of the workspaces among the first `n` of `s`
/// that have a container.
pub open spec fn container_positions(s: Seq<Workspace>, n: int) -> Seq<usize>
    decreases n,
{
    if n <= 0 {
        Seq::empty()
    } else if s[n - 1].container_ref is Some {
        container_positions(s, n - 1).push((n - 1) as usize)
    } else {
        container_positions(s, n - 1)
    }
}

/// The diff stats are computed for exactly the workspaces that have a
/// container, each once and in the listing's order: every position given
/// is that of a workspace with a container, every such workspace's position
/// is given, and the positions increase.
pub proof fn law_diff_targets_are_workspaces_with_container(s: Seq<Workspace>, n: int)
    requires
        0 <= n <= s.len(),
        s.len() <= usize::MAX,
    ensures
        forall|k: int|
            0 <= k < container_positions(s, n).len() ==> {
                &&& (#[trigger] container_positions(s, n)[k]) < n
                &&& s[container_positions(s, n)[k] as int].container_ref is Some
            },
        forall|i: int|
            0 <= i < n && (#[trigger] s[i]).container_ref is Some ==> container_positions(
                s,
                n,
            ).contains(i as usize),
        forall|k1: int, k2: int|
            0 <= k1 < k2 < container_positions(s, n).len() ==> (#[trigger] container_positions(
                s,
                n,
            )[k1]) < (#[trigger] container_positions(s, n)[k2]),
    decreases n,
{
    if n > 0 {
        law_diff_targets_are_workspaces_with_container(s, n - 1);
        let c = container_positions(s, n);
        let p = container_positions(s, n - 1);
        if s[n - 1].container_ref is Some {
            assert(c == p.push((n - 1) as usize));
        } else {
            assert(c == p);
        }
        assert forall|k: int| 0 <= k < c.len() implies {
            &&& (#[trigger] c[k]) < n
            &&& s[c[k] as int].container_ref is Some
        } by {
            if k < p.len() {
                assert(c[k] == p[k]);
            }
        }
        assert forall|k1: int, k2: int| 0 <= k1 < k2 < c.len() implies (#[trigger] c[k1]) < (
        #[trigger] c[k2]) by {
            if k2 < p.len() {
                assert(c[k1] == p[k1]);
                assert(c[k2] == p[k2]);
            } else {
                assert(c[k1] == p[k1]);
                assert(p[k1] < n - 1);
            }
        }
        assert forall|i: int|
            0 <= i < n && (#[trigger] s[i]).container_ref is Some implies c.contains(i as usize) by {
            if i < n - 1 {
                let k = choose|k: int| 0 <= k < p.len() && p[k] == i as usize;
                assert(c[k] == p[k]);
            } else {
                assert(c[c.len() - 1] == (n - 1) as usize);
            }
        }
    }
}

/// The positions of the workspaces whose diff stats are computed: those with
/// a container, in order.
pub fn diff_stat_targets(workspaces: &Vec<Workspace>) -> (idx: Vec<usize>)
    ensures
        idx@ == container_positions(workspaces@, workspaces@.len() as int),
        forall|k: int|
            0 <= k < idx@.len() ==> (#[trigger] idx@[k]) < workspaces@.len()
                && workspaces@[idx@[k] as int].container_ref is Some,
        forall|i: int|
            0 <= i < workspaces@.len() && (#[trigger] workspaces@[i]).container_ref is Some
                ==> idx@.contains(i as usize),
{
    let mut idx: Vec<usize> = Vec::new();
    let n = workspaces.len();
    for i in 0..n
        invariant
            n == workspaces@.len(),
            idx@ == container_positions(workspaces@, i as int),
    {
        if workspaces[i].container_ref.is_some() {
            idx.push(i);
        }
    }
    proof {
        law_diff_targets_are_workspaces_with_container(workspaces@, workspaces@.len() as int);
    }
    idx
}

/// What the map holds for `k`, if anything.
pub open spec fn lookup<V>(m: Map<u128, V>, k: u128) -> Option<V> {
    if m.contains_key(k) {
        Some(m[k])
    } else {
        None
    }
}

/// The summary of workspace `w` from the facts gathered about all of them.
pub open spec fn summary_of(
    w: Workspace,
    latest: Map<u128, LatestProcessInfo>,
    pending: Set<u128>,
    stats: Map<u128, DiffStats>,
    dev_servers: Set<u128>,
    unseen: Set<u128>,
    prs: Map<u128, MergeStatus>,
) -> WorkspaceSummary {
    let l = lookup(latest, w.id);
    let d = lookup(stats, w.id);
    WorkspaceSummary {
        workspace_id: w.id,
        latest_session_id: match l {
            Some(p) => Some(p.session_id),
            None => None,
        },
        has_pending_approval: match l {
            Some(p) => pending.contains(p.execution_process_id),
            None => false,
        },
        files_changed: match d {
            Some(x) => Some(x.files_changed),
            None => None,
        },
        lines_added: match d {
            Some(x) => Some(x.lines_added),
            None => None,
        },
        lines_removed: match d {
            Some(x) => Some(x.lines_removed),
            None => None,
        },
        latest_process_completed_at: match l {
            Some(p) => p.completed_at,
            None => None,
        },
        latest_process_status: match l {
            Some(p) => Some(p.status),
            None => None,
        },
        has_running_dev_server: dev_servers.contains(w.id),
        has_unseen_turns: unseen.contains(w.id),
        pr_status: lookup(prs, w.id),
    }
}

/// A workspace's summary reads each fact gathered for its own id: the
/// latest process's session, status, completion time and pending approval
/// when there is a latest process (nothing otherwise), the diff stats when
/// there are any, whether a dev server runs and whether turns are unseen,
/// and the pull request's state exactly as recorded (none when there is no
/// pull request).
pub proof fn law_summary_reads_facts_of_its_workspace(
    w: Workspace,
    latest: Map<u128, LatestProcessInfo>,
    pending: Set<u128>,
    stats: Map<u128, DiffStats>,
    dev_servers: Set<u128>,
    unseen: Set<u128>,
    prs: Map<u128, MergeStatus>,
    s: WorkspaceSummary,
)
    requires
        s == summary_of(w, latest, pending, stats, dev_servers, unseen, prs),
    ensures
        s.workspace_id == w.id,
        latest.contains_key(w.id) ==> {
            &&& s.latest_session_id == Some(latest[w.id].session_id)
            &&& s.latest_process_status == Some(latest[w.id].status)
            &&& s.latest_process_completed_at == latest[w.id].completed_at
            &&& s.has_pending_approval == pending.contains(latest[w.id].execution_process_id)
        },
        !latest.contains_key(w.id) ==> {
            &&& s.latest_session_id is None
            &&& s.latest_process_status is None
            &&& s.latest_process_completed_at is None
            &&& !s.has_pending_approval
        },
        stats.contains_key(w.id) ==> {
            &&& s.files_changed == Some(stats[w.id].files_changed)
            &&& s.lines_added == Some(stats[w.id].lines_added)
            &&& s.lines_removed == Some(stats[w.id].lines_removed)
        },
        !stats.contains_key(w.id) ==> {
            &&& s.files_changed is None
            &&& s.lines_added is None
            &&& s.lines_removed is None
        },
        s.has_running_dev_server == dev_servers.contains(w.id),
        s.has_unseen_turns == unseen.contains(w.id),
        prs.contains_key(w.id) ==> s.pr_status == Some(prs[w.id]),
        !prs.contains_key(w.id) ==> s.pr_status is None,
{
}

/// One summary per workspace, in the workspaces' order.
pub fn assemble_summaries(
    workspaces: &Vec<Workspace>,
    latest: &HashMap<u128, LatestProcessInfo>,
    pending: &HashSet<u128>,
    diff_stats: &HashMap<u128, DiffStats>,
    dev_servers: &HashSet<u128>,
    unseen: &HashSet<u128>,
    pr_statuses: &HashMap<u128, MergeStatus>,
) -> (r: WorkspaceSummaryResponse)
    ensures
        r.summaries@.len() == workspaces@.len(),
        forall|i: int|
            0 <= i < workspaces@.len() ==> r.summaries@[i] == summary_of(
                #[trigger] workspaces@[i],
                latest@,
                pending@,
                diff_stats@,
                dev_servers@,
                unseen@,
                pr_statuses@,
            ),
        forall|i: int|
            0 <= i < workspaces@.len() ==> {
                let id = (#[trigger] workspaces@[i]).id;
                &&& r.summaries@[i].workspace_id == id
                &&& pr_statuses@.contains_key(id) ==> r.summaries@[i].pr_status == Some(
                    pr_statuses@[id],
                )
                &&& !pr_statuses@.contains_key(id) ==> r.summaries@[i].pr_status is None
                &&& r.summaries@[i].has_running_dev_server == dev_servers@.contains(id)
                &&& r.summaries@[i].has_unseen_turns == unseen@.contains(id)
                &&& latest@.contains_key(id) ==> r.summaries@[i].latest_session_id == Some(
                    latest@[id].session_id,
                )
                &&& !latest@.contains_key(id) ==> r.summaries@[i].latest_session_id is None
                &&& diff_stats@.contains_key(id) ==> r.summaries@[i].files_changed == Some(
                    diff_stats@[id].files_changed,
                )
                &&& !diff_stats@.contains_key(id) ==> r.summaries@[i].files_changed is None
            },
{
    broadcast use vstd::std_specs::hash::group_hash_axioms;

    let mut summaries: Vec<WorkspaceSummary> = Vec::new();
    let n = workspaces.len();
    for i in 0..n
        invariant
            n == workspaces@.len(),
            summaries@.len() == i,
            forall|j: int|
                0 <= j < i ==> summaries@[j] == summary_of(
                    #[trigger] workspaces@[j],
                    latest@,
                    pending@,
                    diff_stats@,
                    dev_servers@,
                    unseen@,
                    pr_statuses@,
                ),
    {
        let id = workspaces[i].id;
        let latest_info: Option<LatestProcessInfo> = match latest.get(&id) {
            Some(p) => Some(*p),
            None => None,
        };
        let has_pending = match latest_info {
            Some(p) => pending.contains(&p.execution_process_id),
            None => false,
        };
        let stats: Option<DiffStats> = match diff_stats.get(&id) {
            Some(d) => Some(*d),
            None => None,
        };
        let summary = WorkspaceSummary {
            workspace_id: id,
            latest_session_id: match latest_info {
                Some(p) => Some(p.session_id),
                None => None,
            },
            has_pending_approval: has_pending,
            files_changed: match stats {
                Some(d) => Some(d.files_changed),
                None => None,
            },
            lines_added: match stats {
                Some(d) => Some(d.lines_added),
                None => None,
            },
            lines_removed: match stats {
                Some(d) => Some(d.lines_removed),
                None => None,
            },
            latest_process_completed_at: match latest_info {
                Some(p) => p.completed_at,
                None => None,
            },
            latest_process_status: match latest_info {
                Some(p) => Some(p.status),
                None => None,
            },
            has_running_dev_server: dev_servers.contains(&id),
            has_unseen_turns: unseen.contains(&id),
            pr_status: match pr_statuses.get(&id) {
                Some(s) => Some(*s),
                None => None,
            },
        };
        summaries.push(summary);
    }
    WorkspaceSummaryResponse { summaries }
}

} // verus!
