use vstd::prelude::*;
use vstd::string::*;

verus! {

/// The status query up to its optional `WHERE` clause.
pub const STATUS_QUERY_HEAD: &'static str = r#"WITH ep_ranked AS (
                SELECT
                    s.workspace_id,
                    ep.status,
                    ROW_NUMBER() OVER (
                        PARTITION BY s.workspace_id
                        ORDER BY ep.created_at DESC
                    ) AS rn
                FROM execution_processes ep
                JOIN sessions s ON ep.session_id = s.id
                WHERE ep.run_reason IN ('setupscript', 'cleanupscript', 'codingagent')
                  AND ep.dropped = FALSE
            ),
            workspace_status AS (
                SELECT
                    workspace_id,
                    MAX(CASE WHEN status = 'running' THEN 1 ELSE 0 END)      AS is_running,
                    MAX(CASE WHEN rn = 1 AND status IN ('failed','killed')
                             THEN 1 ELSE 0 END)                               AS is_errored
                FROM ep_ranked
                GROUP BY workspace_id
            )
            SELECT
                w.id,
                w.task_id,
                w.container_ref,
                w.branch,
                w.agent_working_dir,
                w.setup_completed_at,
                w.created_at,
                w.updated_at,
                w.archived,
                w.pinned,
                w.name,
                COALESCE(ws.is_running, 0) AS is_running,
                COALESCE(ws.is_errored, 0) AS is_errored
            FROM workspaces w
            LEFT JOIN workspace_status ws ON ws.workspace_id = w.id
            "#;

/// The status query between its optional `WHERE` and `LIMIT` clauses.
pub const STATUS_QUERY_ORDER: &'static str = r#"
            ORDER BY w.updated_at DESC
            "#;

/// The `WHERE` clause that selects by archived state.
pub const STATUS_QUERY_ARCHIVED_FILTER: &'static str = "WHERE w.archived = ?";

/// The `LIMIT` clause.
pub const STATUS_QUERY_LIMIT: &'static str = "LIMIT ?";

/// The first-prompts query up to its list of workspace id placeholders.
pub const FIRST_PROMPTS_QUERY_HEAD: &'static str = r#"WITH ranked AS (
                SELECT
                    s.workspace_id,
                    cat.prompt,
                    ROW_NUMBER() OVER (
                        PARTITION BY s.workspace_id
                        ORDER BY s.created_at ASC, ep.created_at ASC
                    ) AS rn
                FROM sessions s
                JOIN execution_processes ep ON ep.session_id = s.id
                JOIN coding_agent_turns cat ON cat.execution_process_id = ep.id
                WHERE s.workspace_id IN ("#;

/// The first-prompts query after its list of workspace id placeholders.
pub const FIRST_PROMPTS_QUERY_TAIL: &'static str = r#")
                  AND s.executor IS NOT NULL
                  AND cat.prompt IS NOT NULL
            )
            SELECT workspace_id, prompt
            FROM ranked
            WHERE rn = 1"#;

/// The name update statement up to its `CASE` branches.
pub const NAME_UPDATE_HEAD: &'static str = "UPDATE workspaces SET name = CASE id";

/// One `CASE` branch of the name update statement.
pub const NAME_UPDATE_BRANCH: &'static str = " WHEN ? THEN ?";

/// The name update statement between its `CASE` branches and its id list.
pub const NAME_UPDATE_MIDDLE: &'static str = " END, updated_at = datetime('now', 'subsec') WHERE id IN (";

/// The end of the name update statement.
pub const NAME_UPDATE_TAIL: &'static str = ")";

/// The statement that changes a workspace's archived flag, pinned flag and
/// name, each only when asked to.
pub const WORKSPACE_UPDATE_STATEMENT: &'static str = r#"UPDATE workspaces SET
                archived = COALESCE($1, archived),
                pinned = COALESCE($2, pinned),
                name = CASE WHEN $3 THEN $4 ELSE name END,
                updated_at = datetime('now', 'subsec')
            WHERE id = $5"#;

/// A value bound to a placeholder of a query.
#[derive(Clone, Debug, PartialEq, Eq)]
pub enum SqlValue {
    /// A UUID, by its 128-bit value.
    Id(u128),
    Text(String),
    Bool(bool),
    Int(i64),
    /// SQL `NULL`.
    Null,
}

/// The view of a bound value: texts by their characters.
pub enum SqlValueView {
    Id(u128),
    Text(Seq<char>),
    Bool(bool),
    Int(i64),
    Null,
}

impl View for SqlValue {
    type V = SqlValueView;

    open spec fn view(&self) -> SqlValueView {
        match self {
            SqlValue::Id(u) => SqlValueView::Id(*u),
            SqlValue::Text(s) => SqlValueView::Text(s@),
            SqlValue::Bool(b) => SqlValueView::Bool(*b),
            SqlValue::Int(i) => SqlValueView::Int(*i),
            SqlValue::Null => SqlValueView::Null,
        }
    }
}

/// The views of a list of bound values.
pub open spec fn binds_view(s: Seq<SqlValue>) -> Seq<SqlValueView> {
    s.map_values(|v: SqlValue| v@)
}

/// A query text with the values for its placeholders, in order.
#[derive(Clone, Debug, PartialEq, Eq)]
pub struct BoundQuery {
    pub sql: String,
    pub binds: Vec<SqlValue>,
}

/// `n` placeholders separated by `", "`.
pub open spec fn placeholder_list(n: nat) -> Seq<char>
    decreases n,
{
    if n == 0 {
        Seq::empty()
    } else if n == 1 {
        seq!['?']
    } else {
        placeholder_list((n - 1) as nat) + seq![',', ' ', '?']
    }
}

/// `piece` written `n` times.
pub open spec fn repeated(piece: Seq<char>, n: nat) -> Seq<char>
    decreases n,
{
    if n == 0 {
        Seq::empty()
    } else {
        repeated(piece, (n - 1) as nat) + piece
    }
}

/// Writes `n` placeholders separated by `", "`.
pub fn placeholders(n: usize) -> (s: String)
    ensures
        s@ == placeholder_list(n as nat),
{
    let mut s = String::new();
    for i in 0..n
        invariant
            s@ == placeholder_list(i as nat),
    {
        proof {
            reveal_strlit("?");
            reveal_strlit(", ?");
        }
        if i == 0 {
            s.append("?");
        } else {
            s.append(", ?");
        }
        assert(s@ =~= placeholder_list((i + 1) as nat));
    }
    s
}

/// Writes `piece` `n` times.
pub fn repeat_text(piece: &str, n: usize) -> (s: String)
    ensures
        s@ == repeated(piece@, n as nat),
{
    let mut s = String::new();
    for i in 0..n
        invariant
            s@ == repeated(piece@, i as nat),
    {
        s.append(piece);
    }
    s
}

/// The text of the workspace status query: the `WHERE` clause only when an
/// archived state is asked for, the `LIMIT` clause only when a limit is.
pub open spec fn status_query_text(archived: Option<bool>, limit: Option<i64>) -> Seq<char> {
    STATUS_QUERY_HEAD@ + (if archived is Some {
        STATUS_QUERY_ARCHIVED_FILTER@
    } else {
        Seq::empty()
    }) + STATUS_QUERY_ORDER@ + (if limit is Some {
        STATUS_QUERY_LIMIT@
    } else {
        Seq::empty()
    })
}

/// The values of the status query: the archived state, then the limit, each
/// only when given.
pub open spec fn status_query_binds(archived: Option<bool>, limit: Option<i64>) -> Seq<
    SqlValueView,
> {
    (match archived {
        Some(a) => seq![SqlValueView::Bool(a)],
        None => Seq::empty(),
    }) + (match limit {
        Some(l) => seq![SqlValueView::Int(l)],
        None => Seq::empty(),
    })
}

/// The query for workspaces with their status, optionally only those of one
/// archived state and at most `limit` of them, newest update first.
pub fn workspaces_with_status_query(archived: Option<bool>, limit: Option<i64>) -> (q: BoundQuery)
    ensures
        q.sql@ == status_query_text(archived, limit),
        binds_view(q.binds@) == status_query_binds(archived, limit),
        archived matches Some(a) ==> q.binds@.len() >= 1 && q.binds@[0] == SqlValue::Bool(a),
        archived is None ==> q.binds@.len() == (if limit is Some { 1int } else { 0int }),
        q.sql@.take(STATUS_QUERY_HEAD@.len() as int) == STATUS_QUERY_HEAD@,
        archived is Some ==> q.sql@.subrange(
            STATUS_QUERY_HEAD@.len() as int,
            (STATUS_QUERY_HEAD@.len() + STATUS_QUERY_ARCHIVED_FILTER@.len()) as int,
        ) == STATUS_QUERY_ARCHIVED_FILTER@,
{
    let mut sql = String::from_str(STATUS_QUERY_HEAD);
    let mut binds: Vec<SqlValue> = Vec::new();
    match archived {
        Some(a) => {
            sql.append(STATUS_QUERY_ARCHIVED_FILTER);
            binds.push(SqlValue::Bool(a));
        },
        None => {},
    }
    sql.append(STATUS_QUERY_ORDER);
    match limit {
        Some(l) => {
            sql.append(STATUS_QUERY_LIMIT);
            binds.push(SqlValue::Int(l));
        },
        None => {},
    }
    assert(sql@ =~= status_query_text(archived, limit));
    assert(binds_view(binds@) =~= status_query_binds(archived, limit));
    proof {
        law_status_query_filters_by_archived_state(archived, limit);
        if archived is Some {
            assert(binds_view(binds@)[0] == binds@[0]@);
        }
    }
    BoundQuery { sql, binds }
}

/// The status query filters by archived state exactly when one is asked
/// for: with `archived` given as `a`, the filter follows the query's head
/// and its first value is `a`; without it, the ordering follows the head
/// directly and no flag is bound. A limit, when given, is the last value.
pub proof fn law_status_query_filters_by_archived_state(archived: Option<bool>, limit: Option<i64>)
    ensures
        ({
            let text = status_query_text(archived, limit);
            let binds = status_query_binds(archived, limit);
            let h = STATUS_QUERY_HEAD@.len() as int;
            &&& text.take(h) == STATUS_QUERY_HEAD@
            &&& archived matches Some(a) ==> {
                &&& text.subrange(h, h + STATUS_QUERY_ARCHIVED_FILTER@.len()) == STATUS_QUERY_ARCHIVED_FILTER@
                &&& binds.len() >= 1
                &&& binds[0] == SqlValueView::Bool(a)
            }
            &&& archived is None ==> {
                &&& text.subrange(h, h + STATUS_QUERY_ORDER@.len()) == STATUS_QUERY_ORDER@
                &&& forall|k: int| 0 <= k < binds.len() ==> !(#[trigger] binds[k] is Bool)
            }
            &&& binds.len() == (if archived is Some { 1int } else { 0int }) + (if limit is Some { 1int } else { 0int })
            &&& limit matches Some(l) ==> binds.last() == SqlValueView::Int(l)
        }),
{
    let text = status_query_text(archived, limit);
    let h = STATUS_QUERY_HEAD@.len() as int;
    assert(text.take(h) =~= STATUS_QUERY_HEAD@);
    if archived is Some {
        assert(text.subrange(h, h + STATUS_QUERY_ARCHIVED_FILTER@.len()) =~= STATUS_QUERY_ARCHIVED_FILTER@);
    } else {
        assert(text.subrange(h, h + STATUS_QUERY_ORDER@.len()) =~= STATUS_QUERY_ORDER@);
    }
}

/// The values that bind a list of workspace ids.
pub open spec fn id_binds(ids: Seq<u128>) -> Seq<SqlValueView> {
    ids.map_values(|u: u128| SqlValueView::Id(u))
}

/// The text of the first-prompts query for `n` workspaces.
pub open spec fn first_prompts_query_text(n: nat) -> Seq<char> {
    FIRST_PROMPTS_QUERY_HEAD@ + placeholder_list(n) + FIRST_PROMPTS_QUERY_TAIL@
}

/// The query for the first prompt of each of the given workspaces; none when
/// there are no workspaces, for then there is nothing to ask.
pub fn first_prompts_query(ids: &Vec<u128>) -> (q: Option<BoundQuery>)
    ensures
        ids@.len() == 0 <==> q is None,
        q matches Some(q) ==> {
            &&& q.sql@ == first_prompts_query_text(ids@.len())
            &&& binds_view(q.binds@) == id_binds(ids@)
        },
        q matches Some(q) ==> q.binds@.len() == ids@.len() && forall|k: int|
            0 <= k < ids@.len() ==> (#[trigger] q.binds@[k]) == SqlValue::Id(ids@[k]),
{
    if ids.len() == 0 {
        return None;
    }
    let mut sql = String::from_str(FIRST_PROMPTS_QUERY_HEAD);
    let list = placeholders(ids.len());
    sql.append(list.as_str());
    sql.append(FIRST_PROMPTS_QUERY_TAIL);
    let mut binds: Vec<SqlValue> = Vec::new();
    let n = ids.len();
    for i in 0..n
        invariant
            n == ids@.len(),
            binds_view(binds@) == id_binds(ids@.take(i as int)),
    {
        let ghost before = binds@;
        binds.push(SqlValue::Id(ids[i]));
        assert(binds@ =~= before.push(SqlValue::Id(ids@[i as int])));
        assert(ids@.take(i + 1) =~= ids@.take(i as int).push(ids@[i as int]));
        assert(binds_view(binds@) =~= binds_view(before).push(SqlValueView::Id(ids@[i as int])));
        assert(id_binds(ids@.take(i + 1)) =~= id_binds(ids@.take(i as int)).push(
            SqlValueView::Id(ids@[i as int]),
        ));
    }
    assert(ids@.take(n as int) =~= ids@);
    assert(sql@ =~= first_prompts_query_text(ids@.len()));
    assert forall|k: int| 0 <= k < ids@.len() implies (#[trigger] binds@[k]) == SqlValue::Id(ids@[k]) by {
        assert(binds_view(binds@)[k] == binds@[k]@);
        assert(id_binds(ids@)[k] == SqlValueView::Id(ids@[k]));
    }
    Some(BoundQuery { sql, binds })
}

/// The text of the statement that renames `n` workspaces.
pub open spec fn name_update_text(n: nat) -> Seq<char> {
    NAME_UPDATE_HEAD@ + repeated(NAME_UPDATE_BRANCH@, n) + NAME_UPDATE_MIDDLE@ + placeholder_list(
        n,
    ) + NAME_UPDATE_TAIL@
}

/// The values of the renaming statement: each id with its name for the
/// `CASE` branches, then each id again for the id list.
pub open spec fn name_update_binds(pairs: Seq<(u128, String)>) -> Seq<SqlValueView> {
    pair_binds(pairs) + id_binds(pairs.map_values(|p: (u128, String)| p.0))
}

/// Each id followed by its name.
pub open spec fn pair_binds(pairs: Seq<(u128, String)>) -> Seq<SqlValueView>
    decreases pairs.len(),
{
    if pairs.len() == 0 {
        Seq::empty()
    } else {
        pair_binds(pairs.drop_last()) + seq![
            SqlValueView::Id(pairs.last().0),
            SqlValueView::Text(pairs.last().1@),
        ]
    }
}

/// The statement that renames every workspace of `pairs` in one round-trip,
/// or none when there is nothing to rename.
pub fn name_update_query(pairs: &Vec<(u128, String)>) -> (q: Option<BoundQuery>)
    ensures
        pairs@.len() == 0 <==> q is None,
        q matches Some(q) ==> {
            &&& q.sql@ == name_update_text(pairs@.len())
            &&& binds_view(q.binds@) == name_update_binds(pairs@)
        },
{
    let m = pairs.len();
    if m == 0 {
        return None;
    }
    let ghost all = pairs@;
    let mut sql = String::from_str(NAME_UPDATE_HEAD);
    let branches = repeat_text(NAME_UPDATE_BRANCH, m);
    sql.append(branches.as_str());
    sql.append(NAME_UPDATE_MIDDLE);
    let list = placeholders(m);
    sql.append(list.as_str());
    sql.append(NAME_UPDATE_TAIL);
    let mut binds: Vec<SqlValue> = Vec::new();
    for i in 0..m
        invariant
            m == pairs@.len(),
            all == pairs@,
            binds_view(binds@) == pair_binds(all.take(i as int)),
    {
        let id = pairs[i].0;
        let name = pairs[i].1.clone();
        binds.push(SqlValue::Id(id));
        binds.push(SqlValue::Text(name));
        assert(all.take(i + 1).drop_last() =~= all.take(i as int));
        assert(binds_view(binds@) =~= pair_binds(all.take(i + 1)));
    }
    assert(all.take(m as int) =~= all);
    let ghost ids = all.map_values(|p: (u128, String)| p.0);
    let ghost pre = binds_view(binds@);
    for i in 0..m
        invariant
            m == pairs@.len(),
            all == pairs@,
            ids == all.map_values(|p: (u128, String)| p.0),
            binds_view(binds@) == pre + id_binds(ids.take(i as int)),
    {
        let ghost before = binds@;
        binds.push(SqlValue::Id(pairs[i].0));
        assert(binds@ =~= before.push(SqlValue::Id(pairs@[i as int].0)));
        assert(ids.take(i + 1) =~= ids.take(i as int).push(ids[i as int]));
        assert(binds_view(binds@) =~= binds_view(before).push(SqlValueView::Id(ids[i as int])));
        assert(id_binds(ids.take(i + 1)) =~= id_binds(ids.take(i as int)).push(
            SqlValueView::Id(ids[i as int]),
        ));
        assert(binds_view(binds@) =~= pre + id_binds(ids.take(i + 1)));
    }
    assert(ids.take(m as int) =~= ids);
    assert(sql@ =~= name_update_text(m as nat));
    Some(BoundQuery { sql, binds })
}

/// The value that `CASE id WHEN ? THEN ? ...` picks for `id` from its
/// branch values (id, value, id, value, ...): the value of the first branch
/// whose id is `id`, if there is one.
pub open spec fn case_value(branches: Seq<SqlValueView>, id: u128) -> Option<SqlValueView>
    decreases branches.len(),
{
    if branches.len() < 2 {
        None
    } else {
        let n = branches.len() as int;
        match case_value(branches.take(n - 2), id) {
            Some(v) => Some(v),
            None => if branches[n - 2] == SqlValueView::Id(id) {
                Some(branches[n - 1])
            } else {
                None
            },
        }
    }
}

/// What the renaming statement for `n` workspaces, run with values `binds`,
/// leaves in the name column of the row `id` that held `name`: rows whose id
/// is in the `IN` list take the value their `CASE` branch picks; every other
/// row keeps its name.
pub open spec fn name_update_effect(
    binds: Seq<SqlValueView>,
    n: nat,
    id: u128,
    name: Option<Seq<char>>,
) -> Option<Seq<char>> {
    if binds.skip(2 * n as int).contains(SqlValueView::Id(id)) {
        match case_value(binds.take(2 * n as int), id) {
            Some(SqlValueView::Text(t)) => Some(t),
            _ => None,
        }
    } else {
        name
    }
}

/// The name that `pairs` gives the workspace `id`: that of its first pair,
/// if it has one.
pub open spec fn first_name_for(pairs: Seq<(u128, String)>, id: u128) -> Option<Seq<char>>
    decreases pairs.len(),
{
    if pairs.len() == 0 {
        None
    } else {
        match first_name_for(pairs.drop_last(), id) {
            Some(t) => Some(t),
            None => if pairs.last().0 == id {
                Some(pairs.last().1@)
            } else {
                None
            },
        }
    }
}

proof fn lemma_case_value_of_pairs(pairs: Seq<(u128, String)>, id: u128)
    ensures
        case_value(pair_binds(pairs), id) == match first_name_for(pairs, id) {
            Some(t) => Some(SqlValueView::Text(t)),
            None => None,
        },
        first_name_for(pairs, id) is Some <==> exists|k: int|
            0 <= k < pairs.len() && (#[trigger] pairs[k]).0 == id,
    decreases pairs.len(),
{
    if pairs.len() > 0 {
        let init = pairs.drop_last();
        lemma_case_value_of_pairs(init, id);
        lemma_pair_binds_len(init);
        let b = pair_binds(pairs);
        assert(b.take(b.len() - 2) =~= pair_binds(init));
        if first_name_for(pairs, id) is Some {
            if first_name_for(init, id) is Some {
                let k = choose|k: int| 0 <= k < init.len() && (#[trigger] init[k]).0 == id;
                assert(pairs[k] == init[k]);
            } else {
                assert(pairs[pairs.len() - 1] == pairs.last());
            }
        } else {
            assert forall|k: int| 0 <= k < pairs.len() implies (#[trigger] pairs[k]).0 != id by {
                if k < init.len() {
                    assert(pairs[k] == init[k]);
                }
            }
        }
    }
}

/// Renaming by `pairs` gives each listed workspace the name of its first
/// pair, and leaves the name of every workspace not listed as it was.
pub proof fn law_name_update_renames_listed_workspaces(
    pairs: Seq<(u128, String)>,
    id: u128,
    name: Option<Seq<char>>,
)
    ensures
        name_update_effect(name_update_binds(pairs), pairs.len(), id, name) == match first_name_for(
            pairs,
            id,
        ) {
            Some(t) => Some(t),
            None => name,
        },
{
    let binds = name_update_binds(pairs);
    let ids = pairs.map_values(|p: (u128, String)| p.0);
    lemma_pair_binds_len(pairs);
    lemma_case_value_of_pairs(pairs, id);
    let n2 = 2 * pairs.len() as int;
    assert(binds.take(n2) =~= pair_binds(pairs));
    assert(binds.skip(n2) =~= id_binds(ids));
    if first_name_for(pairs, id) is Some {
        let k = choose|k: int| 0 <= k < pairs.len() && (#[trigger] pairs[k]).0 == id;
        assert(id_binds(ids)[k] == SqlValueView::Id(id));
    } else {
        if id_binds(ids).contains(SqlValueView::Id(id)) {
            let k = choose|k: int| 0 <= k < id_binds(ids).len() && id_binds(ids)[k] == SqlValueView::Id(id);
            assert(pairs[k].0 == id);
        }
    }
}

/// A flag as a bound value: the flag, or `NULL` when there is none.
pub open spec fn flag_or_null(b: Option<bool>) -> SqlValueView {
    match b {
        Some(v) => SqlValueView::Bool(v),
        None => SqlValueView::Null,
    }
}

/// The values of the workspace update statement: the archived and pinned
/// flags (`NULL` when not to change), whether a name was given, that name
/// unless it is empty (`NULL` otherwise), and the workspace id.
pub open spec fn workspace_update_binds(
    workspace_id: u128,
    archived: Option<bool>,
    pinned: Option<bool>,
    name: Option<Seq<char>>,
) -> Seq<SqlValueView> {
    seq![
        flag_or_null(archived),
        flag_or_null(pinned),
        SqlValueView::Bool(name is Some),
        match name {
            Some(n) => if n.len() == 0 {
                SqlValueView::Null
            } else {
                SqlValueView::Text(n)
            },
            None => SqlValueView::Null,
        },
        SqlValueView::Id(workspace_id),
    ]
}

/// Binds a flag that may be absent.
fn flag_value(b: Option<bool>) -> (v: SqlValue)
    ensures
        v@ == flag_or_null(b),
{
    match b {
        Some(x) => SqlValue::Bool(x),
        None => SqlValue::Null,
    }
}

/// The statement that updates a workspace: only given flags change; a given
/// name is stored, an empty one clearing the name; no name leaves it.
pub fn workspace_update_query(
    workspace_id: u128,
    archived: Option<bool>,
    pinned: Option<bool>,
    name: Option<&str>,
) -> (q: BoundQuery)
    ensures
        q.sql@ == WORKSPACE_UPDATE_STATEMENT@,
        binds_view(q.binds@) == workspace_update_binds(
            workspace_id,
            archived,
            pinned,
            match name {
                Some(n) => Some(n@),
                None => None,
            },
        ),
{
    let name_provided = name.is_some();
    let name_value = match name {
        Some(n) => if n.is_empty() {
            SqlValue::Null
        } else {
            SqlValue::Text(String::from_str(n))
        },
        None => SqlValue::Null,
    };
    let mut binds: Vec<SqlValue> = Vec::new();
    binds.push(flag_value(archived));
    binds.push(flag_value(pinned));
    binds.push(SqlValue::Bool(name_provided));
    binds.push(name_value);
    binds.push(SqlValue::Id(workspace_id));
    let ghost expected = workspace_update_binds(
        workspace_id,
        archived,
        pinned,
        match name {
            Some(n) => Some(n@),
            None => None,
        },
    );
    assert(binds_view(binds@) =~= expected);
    BoundQuery { sql: String::from_str(WORKSPACE_UPDATE_STATEMENT), binds }
}

/// What `COALESCE(value, current)` gives for a flag column.
pub open spec fn coalesce_flag(value: SqlValueView, current: bool) -> bool {
    match value {
        SqlValueView::Bool(b) => b,
        _ => current,
    }
}

/// What the workspace update statement, run with values `binds`, writes to
/// the archived, pinned and name columns of a row that held `row`: each
/// flag through `COALESCE`, and the name through
/// `CASE WHEN $3 THEN $4 ELSE name END`.
pub open spec fn workspace_update_effect(
    binds: Seq<SqlValueView>,
    row: (bool, bool, Option<Seq<char>>),
) -> (bool, bool, Option<Seq<char>>) {
    (
        coalesce_flag(binds[0], row.0),
        coalesce_flag(binds[1], row.1),
        if binds[2] == SqlValueView::Bool(true) {
            match binds[3] {
                SqlValueView::Text(t) => Some(t),
                _ => None,
            }
        } else {
            row.2
        },
    )
}

/// A workspace update changes only what is given: a flag given replaces the
/// stored one, a flag not given stays; a name given is stored, except that
/// an empty name clears the name; no name leaves the name as it was.
pub proof fn law_workspace_update_changes_only_given_fields(
    workspace_id: u128,
    archived: Option<bool>,
    pinned: Option<bool>,
    name: Option<Seq<char>>,
    row: (bool, bool, Option<Seq<char>>),
)
    ensures
        workspace_update_effect(workspace_update_binds(workspace_id, archived, pinned, name), row)
            == (
            match archived {
                Some(a) => a,
                None => row.0,
            },
            match pinned {
                Some(p) => p,
                None => row.1,
            },
            match name {
                Some(n) => if n.len() == 0 {
                    None
                } else {
                    Some(n)
                },
                None => row.2,
            },
        ),
{
}

/// The number of `?` placeholders in a query text.
pub open spec fn placeholder_count(s: Seq<char>) -> nat
    decreases s.len(),
{
    if s.len() == 0 {
        0
    } else {
        placeholder_count(s.drop_last()) + if s.last() == '?' {
            1nat
        } else {
            0nat
        }
    }
}

proof fn lemma_placeholder_count_add(a: Seq<char>, b: Seq<char>)
    ensures
        placeholder_count(a + b) == placeholder_count(a) + placeholder_count(b),
    decreases b.len(),
{
    if b.len() > 0 {
        lemma_placeholder_count_add(a, b.drop_last());
        assert((a + b).drop_last() =~= a + b.drop_last());
    } else {
        assert(a + b =~= a);
    }
}

proof fn lemma_no_placeholders(s: Seq<char>)
    requires
        forall|i: int| 0 <= i < s.len() ==> s[i] != '?',
    ensures
        placeholder_count(s) == 0,
    decreases s.len(),
{
    if s.len() > 0 {
        lemma_no_placeholders(s.drop_last());
    }
}

proof fn lemma_placeholder_list_count(n: nat)
    ensures
        placeholder_count(placeholder_list(n)) == n,
    decreases n,
{
    if n == 1 {
        assert(placeholder_count(seq!['?'].drop_last()) == 0);
    } else if n > 1 {
        lemma_placeholder_list_count((n - 1) as nat);
        lemma_placeholder_count_add(placeholder_list((n - 1) as nat), seq![',', ' ', '?']);
        reveal_with_fuel(placeholder_count, 4);
    }
}

proof fn lemma_repeated_count(piece: Seq<char>, n: nat)
    ensures
        placeholder_count(repeated(piece, n)) == n * placeholder_count(piece),
    decreases n,
{
    if n > 0 {
        lemma_repeated_count(piece, (n - 1) as nat);
        lemma_placeholder_count_add(repeated(piece, (n - 1) as nat), piece);
        assert(n * placeholder_count(piece) == (n - 1) * placeholder_count(piece) + placeholder_count(
            piece,
        )) by (nonlinear_arith);
    } else {
        assert(n * placeholder_count(piece) == 0) by (nonlinear_arith)
            requires
                n == 0,
        ;
    }
}

proof fn lemma_pair_binds_len(pairs: Seq<(u128, String)>)
    ensures
        pair_binds(pairs).len() == 2 * pairs.len(),
    decreases pairs.len(),
{
    if pairs.len() > 0 {
        lemma_pair_binds_len(pairs.drop_last());
    }
}

/// Every placeholder of a renaming statement receives exactly one value: the
/// statement for `pairs` has as many `?` as it binds values.
pub proof fn law_name_update_placeholders_match_binds(pairs: Seq<(u128, String)>)
    ensures
        placeholder_count(name_update_text(pairs.len())) == name_update_binds(pairs).len(),
{
    let n = pairs.len();
    reveal_strlit("UPDATE workspaces SET name = CASE id");
    reveal_strlit(" WHEN ? THEN ?");
    reveal_strlit(" END, updated_at = datetime('now', 'subsec') WHERE id IN (");
    reveal_strlit(")");
    lemma_no_placeholders(NAME_UPDATE_HEAD@);
    lemma_no_placeholders(NAME_UPDATE_MIDDLE@);
    lemma_no_placeholders(NAME_UPDATE_TAIL@);
    assert(placeholder_count(NAME_UPDATE_BRANCH@) == 2) by {
        reveal_with_fuel(placeholder_count, 15);
    }
    lemma_repeated_count(NAME_UPDATE_BRANCH@, n);
    lemma_placeholder_list_count(n);
    let a = NAME_UPDATE_HEAD@;
    let b = repeated(NAME_UPDATE_BRANCH@, n);
    let c = NAME_UPDATE_MIDDLE@;
    let d = placeholder_list(n);
    let e = NAME_UPDATE_TAIL@;
    lemma_placeholder_count_add(a, b);
    lemma_placeholder_count_add(a + b, c);
    lemma_placeholder_count_add(a + b + c, d);
    lemma_placeholder_count_add(a + b + c + d, e);
    lemma_pair_binds_len(pairs);
}

/// Every placeholder of the status query receives exactly one value.
pub proof fn law_status_query_placeholders_match_binds(archived: Option<bool>, limit: Option<i64>)
    ensures
        placeholder_count(status_query_text(archived, limit)) == status_query_binds(
            archived,
            limit,
        ).len(),
{
    reveal_strlit(r#"WITH ep_ranked AS (
                SELECT
                    s.workspace_id,
                    ep.status,
                    ROW_NUMBER() OVER (
                        PARTITION BY s.workspace_id
                        ORDER BY ep.created_at DESC
                    ) AS rn
                FROM execution_processes ep
                JOIN sessions s ON ep.session_id = s.id
                WHERE ep.run_reason IN ('setupscript', 'cleanupscript', 'codingagent')
                  AND ep.dropped = FALSE
            ),
            workspace_status AS (
                SELECT
                    workspace_id,
                    MAX(CASE WHEN status = 'running' THEN 1 ELSE 0 END)      AS is_running,
                    MAX(CASE WHEN rn = 1 AND status IN ('failed','killed')
                             THEN 1 ELSE 0 END)                               AS is_errored
                FROM ep_ranked
                GROUP BY workspace_id
            )
            SELECT
                w.id,
                w.task_id,
                w.container_ref,
                w.branch,
                w.agent_working_dir,
                w.setup_completed_at,
                w.created_at,
                w.updated_at,
                w.archived,
                w.pinned,
                w.name,
                COALESCE(ws.is_running, 0) AS is_running,
                COALESCE(ws.is_errored, 0) AS is_errored
            FROM workspaces w
            LEFT JOIN workspace_status ws ON ws.workspace_id = w.id
            "#);
    reveal_strlit(r#"
            ORDER BY w.updated_at DESC
            "#);
    reveal_strlit("WHERE w.archived = ?");
    reveal_strlit("LIMIT ?");
    lemma_no_placeholders(STATUS_QUERY_HEAD@);
    lemma_no_placeholders(STATUS_QUERY_ORDER@);
    assert(placeholder_count(STATUS_QUERY_ARCHIVED_FILTER@) == 1) by {
        reveal_with_fuel(placeholder_count, 2);
        lemma_no_placeholders(STATUS_QUERY_ARCHIVED_FILTER@.drop_last());
    }
    assert(placeholder_count(STATUS_QUERY_LIMIT@) == 1) by {
        reveal_with_fuel(placeholder_count, 2);
        lemma_no_placeholders(STATUS_QUERY_LIMIT@.drop_last());
    }
    let a = STATUS_QUERY_HEAD@;
    let b = if archived is Some {
        STATUS_QUERY_ARCHIVED_FILTER@
    } else {
        Seq::empty()
    };
    let c = STATUS_QUERY_ORDER@;
    let d = if limit is Some {
        STATUS_QUERY_LIMIT@
    } else {
        Seq::empty()
    };
    lemma_placeholder_count_add(a, b);
    lemma_placeholder_count_add(a + b, c);
    lemma_placeholder_count_add(a + b + c, d);
}

/// Every placeholder of the first-prompts query receives exactly one value.
pub proof fn law_first_prompts_placeholders_match_binds(ids: Seq<u128>)
    ensures
        placeholder_count(first_prompts_query_text(ids.len())) == id_binds(ids).len(),
{
    reveal_strlit(r#"WITH ranked AS (
                SELECT
                    s.workspace_id,
                    cat.prompt,
                    ROW_NUMBER() OVER (
                        PARTITION BY s.workspace_id
                        ORDER BY s.created_at ASC, ep.created_at ASC
                    ) AS rn
                FROM sessions s
                JOIN execution_processes ep ON ep.session_id = s.id
                JOIN coding_agent_turns cat ON cat.execution_process_id = ep.id
                WHERE s.workspace_id IN ("#);
    reveal_strlit(r#")
                  AND s.executor IS NOT NULL
                  AND cat.prompt IS NOT NULL
            )
            SELECT workspace_id, prompt
            FROM ranked
            WHERE rn = 1"#);
    lemma_no_placeholders(FIRST_PROMPTS_QUERY_HEAD@);
    lemma_no_placeholders(FIRST_PROMPTS_QUERY_TAIL@);
    lemma_placeholder_list_count(ids.len());
    let a = FIRST_PROMPTS_QUERY_HEAD@;
    let b = placeholder_list(ids.len());
    let c = FIRST_PROMPTS_QUERY_TAIL@;
    lemma_placeholder_count_add(a, b);
    lemma_placeholder_count_add(a + b, c);
}

} // verus!
