use todo_tools::query::{SqlParam, SqlQuery, count_placeholders, build_select_lists,
    build_select_list_by_title, build_insert_list, build_select_items, build_insert_items,
    build_update_titles, build_stamp_done, build_stamp_removed, build_clear_items};

fn assert_placeholders_match(q: &SqlQuery) {
    assert_eq!(count_placeholders(&q.sql), q.params.len());
}

fn param_uint(p: &SqlParam) -> u32 {
    match p {
        SqlParam::Uint(v) => *v,
        SqlParam::Text(_) => panic!("expected an integer parameter"),
    }
}

fn param_text(p: &SqlParam) -> &str {
    match p {
        SqlParam::Text(s) => s.as_str(),
        SqlParam::Uint(_) => panic!("expected a text parameter"),
    }
}

#[test]
fn select_lists_statement() {
    let q = build_select_lists(false);
    assert_eq!(q.sql, "SELECT * FROM todo_lists WHERE deleted_at IS NULL");
    assert_eq!(q.params.len(), 0);
    assert_placeholders_match(&q);
    let q_all = build_select_lists(true);
    assert_eq!(q_all.sql, "SELECT * FROM todo_lists");
    assert_placeholders_match(&q_all);
}

#[test]
fn select_list_by_title_statement() {
    let q = build_select_list_by_title("gro'ceries\"; DROP TABLE todo_lists");
    assert_eq!(q.sql, "SELECT * FROM todo_lists WHERE title = ? AND deleted_at IS NULL");
    assert_eq!(q.params.len(), 1);
    assert_eq!(param_text(&q.params[0]), "gro'ceries\"; DROP TABLE todo_lists");
    assert_placeholders_match(&q);
}

#[test]
fn insert_list_statement() {
    let q = build_insert_list("groceries");
    assert_eq!(q.sql, "INSERT INTO todo_lists (title) VALUES (?)");
    assert_eq!(q.params.len(), 1);
    assert_eq!(param_text(&q.params[0]), "groceries");
    assert_placeholders_match(&q);
}

#[test]
fn select_items_statement() {
    let q = build_select_items(7, false);
    assert_eq!(
        q.sql,
        "SELECT * FROM todo_list_items WHERE todo_list_id = ? AND deleted_at IS NULL"
    );
    assert_eq!(q.params.len(), 1);
    assert_eq!(param_uint(&q.params[0]), 7);
    assert_placeholders_match(&q);
    let q_all = build_select_items(7, true);
    assert_eq!(q_all.sql, "SELECT * FROM todo_list_items WHERE todo_list_id = ?");
    assert_placeholders_match(&q_all);
}

#[test]
fn insert_items_statement_binds_in_emission_order() {
    let titles = vec!["milk".to_string(), "eggs".to_string()];
    let q = build_insert_items(3, &titles).expect("non-empty input builds a statement");
    assert_eq!(
        q.sql,
        "INSERT INTO todo_list_items (todo_list_id, title) VALUES (?, ?), (?, ?) RETURNING *"
    );
    assert_eq!(q.params.len(), 4);
    assert_eq!(param_uint(&q.params[0]), 3);
    assert_eq!(param_text(&q.params[1]), "milk");
    assert_eq!(param_uint(&q.params[2]), 3);
    assert_eq!(param_text(&q.params[3]), "eggs");
    assert_placeholders_match(&q);
}

#[test]
fn update_titles_statement_binds_pairs_then_list_id() {
    let pairs = vec![(1, "bread".to_string()), (2, "butter".to_string())];
    let q = build_update_titles(9, &pairs).expect("non-empty input builds a statement");
    assert_eq!(
        q.sql,
        "WITH tmp(id, title) AS (VALUES (?, ?), (?, ?)) UPDATE todo_list_items SET title = \
         (SELECT title FROM tmp WHERE todo_list_items.id = tmp.id) WHERE deleted_at IS NULL \
         AND id IN (SELECT id FROM tmp) AND todo_list_id = ? RETURNING *"
    );
    assert_eq!(q.params.len(), 5);
    assert_eq!(param_uint(&q.params[0]), 1);
    assert_eq!(param_text(&q.params[1]), "bread");
    assert_eq!(param_uint(&q.params[2]), 2);
    assert_eq!(param_text(&q.params[3]), "butter");
    assert_eq!(param_uint(&q.params[4]), 9);
    assert_placeholders_match(&q);
}

#[test]
fn stamp_statements_bind_list_id_then_ids() {
    let ids = vec![4, 5, 6];
    let q = build_stamp_done(2, &ids).expect("non-empty input builds a statement");
    assert_eq!(
        q.sql,
        "UPDATE todo_list_items SET done_at = datetime('now') WHERE deleted_at IS NULL \
         AND todo_list_id = ? AND id IN (?, ?, ?)"
    );
    assert_eq!(q.params.len(), 4);
    assert_eq!(param_uint(&q.params[0]), 2);
    assert_eq!(param_uint(&q.params[1]), 4);
    assert_eq!(param_uint(&q.params[3]), 6);
    assert_placeholders_match(&q);

    let r = build_stamp_removed(2, &ids).expect("non-empty input builds a statement");
    assert_eq!(
        r.sql,
        "UPDATE todo_list_items SET deleted_at = datetime('now') WHERE deleted_at IS NULL \
         AND todo_list_id = ? AND id IN (?, ?, ?)"
    );
    assert_placeholders_match(&r);
}

#[test]
fn clear_statement() {
    let q = build_clear_items(5);
    assert_eq!(
        q.sql,
        "UPDATE todo_list_items SET deleted_at = datetime('now') WHERE deleted_at IS NULL \
         AND todo_list_id = ?"
    );
    assert_eq!(q.params.len(), 1);
    assert_eq!(param_uint(&q.params[0]), 5);
    assert_placeholders_match(&q);
}

#[test]
fn empty_bulk_inputs_build_no_statement() {
    let no_titles: Vec<String> = Vec::new();
    let no_pairs: Vec<(u32, String)> = Vec::new();
    let no_ids: Vec<u32> = Vec::new();
    assert!(build_insert_items(1, &no_titles).is_none());
    assert!(build_update_titles(1, &no_pairs).is_none());
    assert!(build_stamp_done(1, &no_ids).is_none());
    assert!(build_stamp_removed(1, &no_ids).is_none());
}

#[test]
fn count_placeholders_counts_question_marks() {
    assert_eq!(count_placeholders(""), 0);
    assert_eq!(count_placeholders("no placeholders"), 0);
    assert_eq!(count_placeholders("? and ? and ??"), 4);
}
