use vibe_kanban_core::queries::{
    first_prompts_query, name_update_query, placeholders, repeat_text,
    workspace_update_query, workspaces_with_status_query, SqlValue, FIRST_PROMPTS_QUERY_HEAD,
    STATUS_QUERY_HEAD, WORKSPACE_UPDATE_STATEMENT,
};

fn count_placeholders(sql: &str) -> usize {
    sql.chars().filter(|c| *c == '?').count()
}

#[test]
fn placeholder_lists() {
    assert_eq!(placeholders(0), "");
    assert_eq!(placeholders(1), "?");
    assert_eq!(placeholders(3), "?, ?, ?");
    assert_eq!(repeat_text(" WHEN ? THEN ?", 2), " WHEN ? THEN ? WHEN ? THEN ?");
}

#[test]
fn status_query_clauses_follow_filters() {
    let q = workspaces_with_status_query(None, None);
    assert!(q.sql.starts_with(STATUS_QUERY_HEAD));
    assert!(!q.sql.contains("WHERE w.archived = ?"));
    assert!(!q.sql.contains("LIMIT ?"));
    assert!(q.binds.is_empty());

    let q = workspaces_with_status_query(Some(true), Some(25));
    assert!(q.sql.contains("WHERE w.archived = ?"));
    assert!(q.sql.trim_end().ends_with("LIMIT ?"));
    assert_eq!(q.binds, vec![SqlValue::Bool(true), SqlValue::Int(25)]);
    assert_eq!(count_placeholders(&q.sql), q.binds.len());

    let q = workspaces_with_status_query(None, Some(3));
    assert_eq!(q.binds, vec![SqlValue::Int(3)]);
    assert_eq!(count_placeholders(&q.sql), 1);
}

#[test]
fn first_prompts_query_skips_empty_list() {
    assert!(first_prompts_query(&vec![]).is_none());
    let q = first_prompts_query(&vec![10, 20]).unwrap();
    assert!(q.sql.starts_with(FIRST_PROMPTS_QUERY_HEAD));
    assert!(q.sql.contains("IN (?, ?)"));
    assert_eq!(q.binds, vec![SqlValue::Id(10), SqlValue::Id(20)]);
    assert_eq!(count_placeholders(&q.sql), 2);
}

#[test]
fn name_updates_empty_is_no_op() {
    assert!(name_update_query(&vec![]).is_none());
}

#[test]
fn name_updates_bind_pairs_then_ids() {
    let pairs = vec![(1u128, "one".to_string()), (2u128, "two".to_string())];
    let q = name_update_query(&pairs).unwrap();
    assert_eq!(
        q.sql,
        "UPDATE workspaces SET name = CASE id WHEN ? THEN ? WHEN ? THEN ? END, \
         updated_at = datetime('now', 'subsec') WHERE id IN (?, ?)"
    );
    assert_eq!(
        q.binds,
        vec![
            SqlValue::Id(1),
            SqlValue::Text("one".to_string()),
            SqlValue::Id(2),
            SqlValue::Text("two".to_string()),
            SqlValue::Id(1),
            SqlValue::Id(2),
        ]
    );
}

#[test]
fn name_updates_in_one_statement() {
    let pairs: Vec<(u128, String)> = (0..250u128).map(|i| (i, format!("name {}", i))).collect();
    let q = name_update_query(&pairs).unwrap();
    assert_eq!(q.binds.len(), 750);
    assert_eq!(count_placeholders(&q.sql), q.binds.len());
    assert_eq!(q.binds[400], SqlValue::Id(200));
    assert_eq!(q.binds[401], SqlValue::Text("name 200".to_string()));
    assert_eq!(q.binds[500], SqlValue::Id(0));
    assert_eq!(q.binds[749], SqlValue::Id(249));
}

#[test]
fn workspace_update_binds_follow_documentation() {
    let q = workspace_update_query(42, Some(true), None, None);
    assert_eq!(q.sql, WORKSPACE_UPDATE_STATEMENT);
    assert_eq!(
        q.binds,
        vec![SqlValue::Bool(true), SqlValue::Null, SqlValue::Bool(false), SqlValue::Null, SqlValue::Id(42)]
    );
    // An empty name clears the name.
    let q = workspace_update_query(42, None, Some(false), Some(""));
    assert_eq!(
        q.binds,
        vec![SqlValue::Null, SqlValue::Bool(false), SqlValue::Bool(true), SqlValue::Null, SqlValue::Id(42)]
    );
    let q = workspace_update_query(42, None, None, Some("foo"));
    assert_eq!(q.binds[2], SqlValue::Bool(true));
    assert_eq!(q.binds[3], SqlValue::Text("foo".to_string()));
}
