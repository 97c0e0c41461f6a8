use vstd::prelude::*;
use vstd::string::*;

use std::collections::HashMap;

use crate::naming::{
    chars_of, last_space_end, last_space_index, law_derived_name_is_prefix_of_prompt,
    lemma_last_space_index_in_bounds, name_from_prompt,
    trim_bounds, trimmed,
};
use crate::time::Timestamp;

verus! {

/// A workspace: the isolated environment of one attempt at a task.
#[derive(Clone, Debug, PartialEq, Eq)]
pub struct Workspace {
    pub id: u128,
    pub task_id: u128,
    pub container_ref: Option<String>,
    pub branch: String,
    pub agent_working_dir: Option<String>,
    pub setup_completed_at: Option<Timestamp>,
    pub created_at: Timestamp,
    pub updated_at: Timestamp,
    pub archived: bool,
    pub pinned: bool,
    pub name: Option<String>,
}

/// What a workspace is created from.
#[derive(Clone, Debug, PartialEq, Eq)]
pub struct CreateWorkspace {
    pub branch: String,
    pub agent_working_dir: Option<String>,
}

/// A follow-up prompt for an existing attempt.
#[derive(Clone, Debug, PartialEq, Eq)]
pub struct CreateFollowUpAttempt {
    pub prompt: String,
}

/// Context data for resume operations (simplified).
#[derive(Clone, Debug, PartialEq, Eq)]
pub struct AttemptResumeContext {
    pub execution_history: String,
    pub cumulative_diffs: String,
}

/// The workspace, task and project that a container reference belongs to.
#[derive(Clone, Copy, PartialEq, Eq, Structural, Debug)]
pub struct ContainerInfo {
    pub workspace_id: u128,
    pub task_id: u128,
    pub project_id: u128,
}

/// GitHub PR creation parameters.
#[derive(Clone, Copy, Debug, PartialEq, Eq)]
pub struct CreatePrParams<'a> {
    pub workspace_id: u128,
    pub task_id: u128,
    pub project_id: u128,
    pub github_token: &'a str,
    pub title: &'a str,
    pub body: Option<&'a str>,
    pub base_branch: Option<&'a str>,
}

/// A non-empty path with no `/`, backslash or `:`: a single relative component
/// on every platform, whose parent is the empty path.
pub open spec fn is_single_component(path: Seq<char>) -> bool {
    &&& path.len() > 0
    &&& forall|i: int| 0 <= i < path.len() ==> #[trigger] path[i] != '/' && path[i] != '\u{5c}'
        && path[i] != ':'
}

/// Calls `std::path::Path::parent` on `path` and `Path::to_str` on the
/// parent: the path without its final component, when it has one and it is
/// valid text. The empty path has no parent; a relative path of one
/// component has the empty path as parent; any parent is a shorter prefix of
/// the path. Where the cut falls otherwise depends on the platform's path
/// rules, so which prefix it is goes unsaid.
#[verifier::external_body]
fn parent_directory_text(path: &str) -> (r: Option<String>)
    ensures
        path@.len() == 0 ==> r is None,
        is_single_component(path@) ==> r is Some && r->0@.len() == 0,
        r matches Some(p) ==> p@.len() < path@.len() && p@ == path@.take(p@.len() as int),
{
    match std::path::Path::new(path).parent() {
        Some(parent) => parent.to_str().map(|p| p.to_string()),
        None => None,
    }
}

/// The container references to try in turn for `path`, given its parent
/// directory: the path itself, then the parent when there is one.
pub fn candidates_with_parent(path: &str, parent: Option<String>) -> (c: Vec<String>)
    ensures
        c@.len() == if parent is Some {
            2int
        } else {
            1int
        },
        c@[0]@ == path@,
        parent matches Some(p) ==> c@[1] == p,
{
    let mut c: Vec<String> = Vec::new();
    c.push(String::from_str(path));
    match parent {
        Some(p) => c.push(p),
        None => {},
    }
    c
}

/// The container references to try in turn for a path opened in an editor:
/// the path itself, then its parent directory when it has one (an editor may
/// open a repository's subfolder rather than the workspace's root). The
/// parent, when tried, is a shorter prefix of the path; the empty path has
/// none; a path of one relative component has the empty path as parent.
pub fn container_ref_candidates(path: &str) -> (c: Vec<String>)
    ensures
        1 <= c@.len() <= 2,
        c@[0]@ == path@,
        path@.len() == 0 ==> c@.len() == 1,
        is_single_component(path@) ==> c@.len() == 2 && c@[1]@.len() == 0,
        c@.len() == 2 ==> c@[1]@.len() < path@.len() && c@[1]@ == path@.take(c@[1]@.len() as int),
{
    let parent = parent_directory_text(path);
    candidates_with_parent(path, parent)
}

/// The first of the lookups, in order, that found a container.
pub open spec fn first_found(results: Seq<Option<ContainerInfo>>) -> Option<ContainerInfo>
    decreases results.len(),
{
    if results.len() == 0 {
        None
    } else if results[0] is Some {
        results[0]
    } else {
        first_found(results.drop_first())
    }
}

/// The lookup that wins is the earliest one that found a container: when
/// one did, the result is its container and every lookup before it found
/// nothing; when none did, there is no result.
pub proof fn law_first_found_is_earliest_success(results: Seq<Option<ContainerInfo>>)
    ensures
        first_found(results) matches Some(c) ==> exists|i: int|
            0 <= i < results.len() && results[i] == Some(c) && forall|j: int|
                0 <= j < i ==> (#[trigger] results[j]) is None,
        first_found(results) is None ==> forall|i: int|
            0 <= i < results.len() ==> (#[trigger] results[i]) is None,
    decreases results.len(),
{
    if results.len() > 0 {
        let rest = results.drop_first();
        law_first_found_is_earliest_success(rest);
        if results[0] is None {
            if first_found(results) is Some {
                let c = first_found(results)->0;
                let i = choose|i: int|
                    0 <= i < rest.len() && rest[i] == Some(c) && forall|j: int|
                        0 <= j < i ==> (#[trigger] rest[j]) is None;
                assert(results[i + 1] == rest[i]);
                assert forall|j: int| 0 <= j < i + 1 implies (#[trigger] results[j]) is None by {
                    if j > 0 {
                        assert(results[j] == rest[j - 1]);
                    }
                }
            } else {
                assert forall|i: int| 0 <= i < results.len() implies (#[trigger] results[i]) is None by {
                    if i > 0 {
                        assert(results[i] == rest[i - 1]);
                    }
                }
            }
        }
    }
}


/// Picks the first lookup, in order, that found a container; none when
/// none did.
pub fn first_resolved(results: &Vec<Option<ContainerInfo>>) -> (r: Option<ContainerInfo>)
    ensures
        r == first_found(results@),
{
    let n = results.len();
    let mut i: usize = 0;
    assert(results@.skip(0) =~= results@);
    while i < n
        invariant
            n == results@.len(),
            i <= n,
            first_found(results@) == first_found(results@.skip(i as int)),
        decreases n - i,
    {
        assert(results@.skip(i as int)[0] == results@[i as int]);
        if results[i].is_some() {
            return results[i];
        }
        assert(results@.skip(i as int).drop_first() =~= results@.skip(i + 1));
        i = i + 1;
    }
    None
}

/// Maximum length, in characters and with the ellipsis included, of a name
/// derived for a workspace from its first prompt.
pub const WORKSPACE_NAME_MAX_LEN: usize = 60;

/// A workspace with whether one of its processes runs and whether its latest
/// process failed or was killed.
#[derive(Clone, Debug, PartialEq, Eq)]
pub struct WorkspaceWithStatus {
    pub workspace: Workspace,
    pub is_running: bool,
    pub is_errored: bool,
}

/// A row of the workspace status query: the workspace's columns and the two
/// status flags as the integers 0 or 1 that the query yields.
#[derive(Clone, Debug, PartialEq, Eq)]
pub struct WorkspaceWithStatusRow {
    pub workspace: Workspace,
    pub is_running: i64,
    pub is_errored: i64,
}

/// The ids of the workspaces of `s` that have no name, in order.
pub open spec fn unnamed_ids(s: Seq<WorkspaceWithStatus>) -> Seq<u128>
    decreases s.len(),
{
    if s.len() == 0 {
        Seq::empty()
    } else if s.last().workspace.name is None {
        unnamed_ids(s.drop_last()).push(s.last().workspace.id)
    } else {
        unnamed_ids(s.drop_last())
    }
}

proof fn lemma_unnamed_ids_filter(s: Seq<WorkspaceWithStatus>)
    ensures
        unnamed_ids(s) == s.filter(|w: WorkspaceWithStatus| w.workspace.name is None).map_values(
            |w: WorkspaceWithStatus| w.workspace.id,
        ),
    decreases s.len(),
{
    let pred = |w: WorkspaceWithStatus| w.workspace.name is None;
    let id_of = |w: WorkspaceWithStatus| w.workspace.id;
    reveal(Seq::filter);
    if s.len() > 0 {
        let init = s.drop_last();
        lemma_unnamed_ids_filter(init);
        assert(s.filter(pred) == if pred(s.last()) {
            init.filter(pred).push(s.last())
        } else {
            init.filter(pred)
        });
        if pred(s.last()) {
            assert(s.filter(pred).map_values(id_of) =~= init.filter(pred).map_values(id_of).push(
                s.last().workspace.id,
            ));
        }
    } else {
        assert(s.filter(pred).map_values(id_of) =~= Seq::<u128>::empty());
    }
}

proof fn lemma_unnamed_ids_include_unnamed(s: Seq<WorkspaceWithStatus>)
    ensures
        forall|i: int|
            0 <= i < s.len() && (#[trigger] s[i]).workspace.name is None ==> unnamed_ids(
                s,
            ).contains(s[i].workspace.id),
    decreases s.len(),
{
    if s.len() > 0 {
        let init = s.drop_last();
        lemma_unnamed_ids_include_unnamed(init);
        let u = unnamed_ids(s);
        let ui = unnamed_ids(init);
        assert forall|i: int|
            0 <= i < s.len() && (#[trigger] s[i]).workspace.name is None implies u.contains(
                s[i].workspace.id,
            ) by {
            if i < init.len() {
                assert(init[i] == s[i]);
                let k = choose|k: int| 0 <= k < ui.len() && ui[k] == init[i].workspace.id;
                assert(u[k] == ui[k]);
            } else {
                assert(s[i] == s.last());
                assert(u[u.len() - 1] == s.last().workspace.id);
            }
        }
    }
}

/// The ids to ask a first prompt for are exactly those of the workspaces
/// with no name, in the listing's order, whatever else (archived, pinned,
/// status) holds of them; in particular every unnamed workspace's id is
/// among them.
pub proof fn law_unnamed_ids_are_the_unnamed_workspaces(s: Seq<WorkspaceWithStatus>)
    ensures
        unnamed_ids(s) == s.filter(|w: WorkspaceWithStatus| w.workspace.name is None).map_values(
            |w: WorkspaceWithStatus| w.workspace.id,
        ),
        forall|i: int|
            0 <= i < s.len() && (#[trigger] s[i]).workspace.name is None ==> unnamed_ids(
                s,
            ).contains(s[i].workspace.id),
{
    lemma_unnamed_ids_filter(s);
    lemma_unnamed_ids_include_unnamed(s);
}

/// Whether `w` is to be named from a prompt in `prompts`.
pub open spec fn gets_derived_name(w: WorkspaceWithStatus, prompts: Map<u128, String>) -> bool {
    w.workspace.name is None && prompts.contains_key(w.workspace.id)
}

/// `new` is `old`, named from its prompt when it gets a derived name.
pub open spec fn renamed_from(
    old: WorkspaceWithStatus,
    new: WorkspaceWithStatus,
    prompts: Map<u128, String>,
) -> bool {
    if gets_derived_name(old, prompts) {
        &&& new.workspace.name matches Some(n) && n@ == name_from_prompt(
            prompts[old.workspace.id]@,
            WORKSPACE_NAME_MAX_LEN as nat,
        )
        &&& new == (WorkspaceWithStatus {
            workspace: Workspace { name: new.workspace.name, ..old.workspace },
            ..old
        })
    } else {
        new == old
    }
}

/// The `(id, name)` pairs that naming `s` from `prompts` produces, in order.
pub open spec fn name_updates(s: Seq<WorkspaceWithStatus>, prompts: Map<u128, String>) -> Seq<
    (u128, Seq<char>),
>
    decreases s.len(),
{
    if s.len() == 0 {
        Seq::empty()
    } else if gets_derived_name(s.last(), prompts) {
        name_updates(s.drop_last(), prompts).push(
            (
                s.last().workspace.id,
                name_from_prompt(
                    prompts[s.last().workspace.id]@,
                    WORKSPACE_NAME_MAX_LEN as nat,
                ),
            ),
        )
    } else {
        name_updates(s.drop_last(), prompts)
    }
}

/// The names stored for a listing are, in the listing's order, one pair per
/// workspace that has no name and has a prompt: its id and the name derived
/// from its prompt; no other workspace gets a pair.
pub proof fn law_stored_names_are_those_of_unnamed_with_prompt(
    s: Seq<WorkspaceWithStatus>,
    prompts: Map<u128, String>,
)
    ensures
        name_updates(s, prompts) == s.filter(
            |w: WorkspaceWithStatus| w.workspace.name is None && prompts.contains_key(w.workspace.id),
        ).map_values(
            |w: WorkspaceWithStatus|
                (
                    w.workspace.id,
                    name_from_prompt(prompts[w.workspace.id]@, WORKSPACE_NAME_MAX_LEN as nat),
                ),
        ),
    decreases s.len(),
{
    let pred = |w: WorkspaceWithStatus| w.workspace.name is None && prompts.contains_key(w.workspace.id);
    let pair = |w: WorkspaceWithStatus|
        (w.workspace.id, name_from_prompt(prompts[w.workspace.id]@, WORKSPACE_NAME_MAX_LEN as nat));
    reveal(Seq::filter);
    if s.len() > 0 {
        let init = s.drop_last();
        law_stored_names_are_those_of_unnamed_with_prompt(init, prompts);
        assert(s.filter(pred) == if pred(s.last()) {
            init.filter(pred).push(s.last())
        } else {
            init.filter(pred)
        });
        if pred(s.last()) {
            assert(s.filter(pred).map_values(pair) =~= init.filter(pred).map_values(pair).push(
                pair(s.last()),
            ));
        }
    } else {
        assert(s.filter(pred).map_values(pair) =~= Seq::<(u128, Seq<char>)>::empty());
    }
}

/// The map that inserting the rows of `s` in order builds.
pub open spec fn rows_to_map(s: Seq<(u128, String)>) -> Map<u128, String>
    decreases s.len(),
{
    if s.len() == 0 {
        Map::empty()
    } else {
        rows_to_map(s.drop_last()).insert(s.last().0, s.last().1)
    }
}

/// Building the prompt map keeps one entry per workspace id that has a row,
/// and no other: the entry holds the prompt of the last row for that id.
pub proof fn law_prompt_map_keeps_last_row_per_id(s: Seq<(u128, String)>, k: u128)
    ensures
        rows_to_map(s).contains_key(k) <==> exists|i: int| 0 <= i < s.len() && (#[trigger] s[i]).0 == k,
        rows_to_map(s).contains_key(k) ==> exists|i: int|
            0 <= i < s.len() && (#[trigger] s[i]).0 == k && rows_to_map(s)[k] == s[i].1 && forall|
                j: int,
            |
                i < j < s.len() ==> (#[trigger] s[j]).0 != k,
    decreases s.len(),
{
    if s.len() > 0 {
        let init = s.drop_last();
        law_prompt_map_keeps_last_row_per_id(init, k);
        let n = s.len() - 1;
        assert(s[n] == s.last());
        if s.last().0 == k {
            assert forall|j: int| n < j < s.len() implies (#[trigger] s[j]).0 != k by {}
        } else {
            if rows_to_map(init).contains_key(k) {
                let i = choose|i: int|
                    0 <= i < init.len() && (#[trigger] init[i]).0 == k && rows_to_map(init)[k]
                        == init[i].1 && forall|j: int| i < j < init.len() ==> (#[trigger] init[j]).0
                        != k;
                assert(s[i] == init[i]);
                assert forall|j: int| i < j < s.len() implies (#[trigger] s[j]).0 != k by {
                    if j < n {
                        assert(s[j] == init[j]);
                    }
                }
            }
            assert((exists|i: int| 0 <= i < s.len() && (#[trigger] s[i]).0 == k) ==> (exists|
                i: int,
            | 0 <= i < init.len() && (#[trigger] init[i]).0 == k)) by {
                if exists|i: int| 0 <= i < s.len() && (#[trigger] s[i]).0 == k {
                    let i = choose|i: int| 0 <= i < s.len() && (#[trigger] s[i]).0 == k;
                    assert(init[i] == s[i]);
                }
            }
            assert((exists|i: int| 0 <= i < init.len() && (#[trigger] init[i]).0 == k) ==> (exists|
                i: int,
            | 0 <= i < s.len() && (#[trigger] s[i]).0 == k)) by {
                if exists|i: int| 0 <= i < init.len() && (#[trigger] init[i]).0 == k {
                    let i = choose|i: int| 0 <= i < init.len() && (#[trigger] init[i]).0 == k;
                    assert(init[i] == s[i]);
                }
            }
        }
    }
}

/// Naming a workspace of a listing: one with a name, or without a prompt,
/// is left exactly as it was; one without a name but with a prompt gets the
/// name derived from that prompt, and nothing else of it changes.
pub proof fn law_renaming_names_only_unnamed_with_prompt(
    old: WorkspaceWithStatus,
    new: WorkspaceWithStatus,
    prompts: Map<u128, String>,
)
    requires
        renamed_from(old, new, prompts),
    ensures
        old.workspace.name is Some ==> new == old,
        !prompts.contains_key(old.workspace.id) ==> new == old,
        old.workspace.name is None && prompts.contains_key(old.workspace.id) ==> {
            &&& new.workspace.name matches Some(n) && n@ == name_from_prompt(
                prompts[old.workspace.id]@,
                WORKSPACE_NAME_MAX_LEN as nat,
            )
            &&& new.workspace.id == old.workspace.id
            &&& new.workspace.task_id == old.workspace.task_id
            &&& new.workspace.container_ref == old.workspace.container_ref
            &&& new.workspace.branch == old.workspace.branch
            &&& new.workspace.archived == old.workspace.archived
            &&& new.workspace.pinned == old.workspace.pinned
            &&& new.workspace.agent_working_dir == old.workspace.agent_working_dir
            &&& new.workspace.setup_completed_at == old.workspace.setup_completed_at
            &&& new.workspace.created_at == old.workspace.created_at
            &&& new.workspace.updated_at == old.workspace.updated_at
            &&& new.is_running == old.is_running
            &&& new.is_errored == old.is_errored
        },
{
}

/// The view of a list of `(id, name)` pairs.
pub open spec fn pairs_view(s: Seq<(u128, String)>) -> Seq<(u128, Seq<char>)> {
    s.map_values(|p: (u128, String)| (p.0, p.1@))
}

/// Every name derived for a listing has at most `WORKSPACE_NAME_MAX_LEN`
/// characters, its ellipsis included.
pub proof fn law_derived_names_fit_max_len(
    s: Seq<WorkspaceWithStatus>,
    prompts: Map<u128, String>,
    k: int,
)
    requires
        0 <= k < name_updates(s, prompts).len(),
    ensures
        name_updates(s, prompts)[k].1.len() <= WORKSPACE_NAME_MAX_LEN,
    decreases s.len(),
{
    let rest = name_updates(s.drop_last(), prompts);
    if k < rest.len() {
        law_derived_names_fit_max_len(s.drop_last(), prompts, k);
    } else {
        law_derived_name_is_prefix_of_prompt(
            prompts[s.last().workspace.id]@,
            WORKSPACE_NAME_MAX_LEN as nat,
        );
    }
}

/// Derived names are stored only for workspaces that had no name and had a
/// prompt: a name already given is never replaced.
pub proof fn law_derived_names_only_for_unnamed(
    s: Seq<WorkspaceWithStatus>,
    prompts: Map<u128, String>,
    k: int,
)
    requires
        0 <= k < name_updates(s, prompts).len(),
    ensures
        exists|i: int|
            0 <= i < s.len() && gets_derived_name(#[trigger] s[i], prompts) && s[i].workspace.id
                == name_updates(s, prompts)[k].0,
    decreases s.len(),
{
    let rest = name_updates(s.drop_last(), prompts);
    if k < rest.len() {
        law_derived_names_only_for_unnamed(s.drop_last(), prompts, k);
        let i = choose|i: int|
            0 <= i < s.drop_last().len() && gets_derived_name(
                #[trigger] s.drop_last()[i],
                prompts,
            ) && s.drop_last()[i].workspace.id == rest[k].0;
        assert(s[i] == s.drop_last()[i]);
    } else {
        assert(s[s.len() - 1] == s.last());
    }
}

impl WorkspaceWithStatus {
    /// Reads a status row: a flag is set when its column is not 0.
    pub fn from_row(row: WorkspaceWithStatusRow) -> (ws: WorkspaceWithStatus)
        ensures
            ws.workspace == row.workspace,
            ws.is_running == (row.is_running != 0),
            ws.is_errored == (row.is_errored != 0),
    {
        WorkspaceWithStatus {
            workspace: row.workspace,
            is_running: row.is_running != 0,
            is_errored: row.is_errored != 0,
        }
    }

    /// Names an unnamed workspace from its first prompt, when there is one;
    /// gives back the workspace and the name to store, if any.
    pub fn with_first_prompt_name(self, prompt: Option<String>) -> (r: (
        WorkspaceWithStatus,
        Option<String>,
    ))
        ensures
            (self.workspace.name is None && prompt is Some) ==> {
                &&& r.1 matches Some(n) && n@ == name_from_prompt(
                    prompt->0@,
                    WORKSPACE_NAME_MAX_LEN as nat,
                )
                &&& r.0 == (WorkspaceWithStatus {
                    workspace: Workspace { name: r.1, ..self.workspace },
                    ..self
                })
            },
            !(self.workspace.name is None && prompt is Some) ==> r.0 == self && r.1 is None,
    {
        if self.workspace.name.is_none() {
            match prompt {
                Some(p) => {
                    let name = Workspace::truncate_to_name(p.as_str(), WORKSPACE_NAME_MAX_LEN);
                    let stored = name.clone();
                    let mut ws = self;
                    ws.workspace.name = Some(name);
                    return (ws, Some(stored));
                },
                None => {},
            }
        }
        (self, None)
    }
}

impl std::ops::Deref for WorkspaceWithStatus {
    type Target = Workspace;

    fn deref(&self) -> (w: &Workspace)
        ensures
            *w == self.workspace,
    {
        &self.workspace
    }
}

/// The ids of the unnamed workspaces, in order.
pub fn unnamed_workspace_ids(workspaces: &Vec<WorkspaceWithStatus>) -> (ids: Vec<u128>)
    ensures
        ids@ == unnamed_ids(workspaces@),
        ids@ == workspaces@.filter(|w: WorkspaceWithStatus| w.workspace.name is None).map_values(
            |w: WorkspaceWithStatus| w.workspace.id,
        ),
        forall|i: int|
            0 <= i < workspaces@.len() && (#[trigger] workspaces@[i]).workspace.name is None
                ==> ids@.contains(workspaces@[i].workspace.id),
{
    let mut ids: Vec<u128> = Vec::new();
    let n = workspaces.len();
    for i in 0..n
        invariant
            n == workspaces@.len(),
            ids@ == unnamed_ids(workspaces@.take(i as int)),
    {
        assert(workspaces@.take(i + 1).drop_last() =~= workspaces@.take(i as int));
        if workspaces[i].workspace.name.is_none() {
            ids.push(workspaces[i].workspace.id);
        }
    }
    assert(workspaces@.take(n as int) =~= workspaces@);
    proof {
        law_unnamed_ids_are_the_unnamed_workspaces(workspaces@);
    }
    ids
}

/// Builds the map from workspace id to first prompt out of the query's rows;
/// a later row for the same id replaces an earlier one.
pub fn prompts_by_workspace(rows: Vec<(u128, String)>) -> (m: HashMap<u128, String>)
    ensures
        m@ == rows_to_map(rows@),
{
    broadcast use vstd::std_specs::hash::group_hash_axioms;

    let mut m: HashMap<u128, String> = HashMap::with_capacity(rows.len());
    let ghost all = rows@;
    for row in it: rows
        invariant
            it.seq() == all,
            m@ == rows_to_map(all.take(it.index() as int)),
    {
        assert(all.take(it.index() + 1).drop_last() =~= all.take(it.index() as int));
        m.insert(row.0, row.1);
    }
    assert(all.take(all.len() as int) =~= all);
    m
}

/// Names every unnamed workspace that has a prompt in `prompts`; gives back
/// the workspaces and the `(id, name)` pairs to store, in order.
pub fn with_derived_names(
    workspaces: Vec<WorkspaceWithStatus>,
    prompts: &HashMap<u128, String>,
) -> (r: (Vec<WorkspaceWithStatus>, Vec<(u128, String)>))
    ensures
        r.0@.len() == workspaces@.len(),
        forall|i: int|
            0 <= i < workspaces@.len() ==> renamed_from(
                #[trigger] workspaces@[i],
                r.0@[i],
                prompts@,
            ),
        pairs_view(r.1@) == name_updates(workspaces@, prompts@),
{
    broadcast use vstd::std_specs::hash::group_hash_axioms;

    let ghost all = workspaces@;
    let mut out: Vec<WorkspaceWithStatus> = Vec::new();
    let mut updates: Vec<(u128, String)> = Vec::new();
    for w in it: workspaces
        invariant
            it.seq() == all,
            out@.len() == it.index(),
            forall|i: int| 0 <= i < it.index() ==> renamed_from(#[trigger] all[i], out@[i], prompts@),
            pairs_view(updates@) == name_updates(all.take(it.index() as int), prompts@),
    {
        let ghost k = it.index() as int;
        assert(all.take(k + 1).drop_last() =~= all.take(k));
        assert(all.take(k + 1).last() == w);
        let id = w.workspace.id;
        let mut next = w;
        if next.workspace.name.is_none() {
            match prompts.get(&id) {
                Some(p) => {
                    let name = Workspace::truncate_to_name(p.as_str(), WORKSPACE_NAME_MAX_LEN);
                    let stored = name.clone();
                    next.workspace.name = Some(name);
                    updates.push((id, stored));
                },
                None => {},
            }
        }
        out.push(next);
        assert(pairs_view(updates@) =~= name_updates(all.take(k + 1), prompts@));
    }
    assert(all.take(all.len() as int) =~= all);
    (out, updates)
}

impl Workspace {
    /// Derives a workspace name from a prompt: the trimmed prompt when it has
    /// at most `max_len` characters, else its first `max_len - 3` characters
    /// (`max_len` of them when `max_len < 3`) cut back to before their last
    /// space (when they hold one), then `...`; so the name has at most
    /// `max_len` characters whenever `max_len >= 3`.
    pub fn truncate_to_name(prompt: &str, max_len: usize) -> (name: String)
        ensures
            name@ == name_from_prompt(prompt@, max_len as nat),
            max_len >= 3 ==> name@.len() <= max_len,
    {
        let cs = chars_of(prompt);
        let (lo, hi) = trim_bounds(&cs);
        let ghost t = trimmed(prompt@);
        if hi - lo <= max_len {
            return String::from_str(prompt.substring_char(lo, hi));
        }
        let keep = if max_len >= 3 { max_len - 3 } else { max_len };
        let cut_end = lo + keep;
        let ghost cut = t.take(keep as int);
        assert(cut =~= cs@.subrange(lo as int, cut_end as int));
        let j = last_space_end(&cs, lo, cut_end);
        let kept_end = if j > lo { j - 1 } else { cut_end };
        let mut name = String::from_str(prompt.substring_char(lo, kept_end));
        name.append("...");
        proof {
            reveal_strlit("...");
            lemma_last_space_index_in_bounds(cut);
            match last_space_index(cut) {
                Some(i) => {
                    assert(cut.take(i) =~= cs@.subrange(lo as int, kept_end as int));
                },
                None => {},
            }
        }
        assert(name@ =~= name_from_prompt(prompt@, max_len as nat));
        proof {
            law_derived_name_is_prefix_of_prompt(prompt@, max_len as nat);
        }
        name
    }
}

} // verus!
