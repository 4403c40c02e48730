//! The query builder: produces the parameterized SQL text and the
//! ordered bound-parameter list for every batch operation shape the
//! repository issues.
//!
//! The statement text is a function of the input *sizes* alone — user
//! data only ever travels through the parameter list — and for every
//! generated statement the number of `?` placeholders equals the number
//! of bound parameters, in the same order.

use vstd::prelude::*;

verus! {

/// One bound parameter, in binding order.
pub enum SqlParam {
    Uint(u32),
    Text(String),
}

/// One complete parameterized statement: the SQL text with positional
/// `?` placeholders, and the parameters in placeholder order.
pub struct SqlQuery {
    pub sql: String,
    pub params: Vec<SqlParam>,
}

/// How many positional placeholders a statement text holds.
pub open spec fn count_qmarks(s: Seq<char>) -> int
    decreases s.len(),
{
    if s.len() == 0 {
        0
    } else {
        count_qmarks(s.drop_last()) + (if s.last() == '?' {
            1int
        } else {
            0int
        })
    }
}

/// Placeholders in a concatenation are the placeholders of both parts.
pub proof fn lemma_count_qmarks_concat(a: Seq<char>, b: Seq<char>)
    ensures
        count_qmarks(a + b) == count_qmarks(a) + count_qmarks(b),
    decreases b.len(),
{
    if b.len() == 0 {
        assert(a + b =~= a);
    } else {
        assert((a + b).drop_last() =~= a + b.drop_last());
        assert((a + b).last() == b.last());
        lemma_count_qmarks_concat(a, b.drop_last());
    }
}

/// A comma-separated run of `n` placeholders, as an `IN (...)` clause
/// carries.
pub open spec fn qmark_list(n: nat) -> Seq<char>
    decreases n,
{
    if n <= 1 {
        "?"@
    } else {
        qmark_list((n - 1) as nat) + ", ?"@
    }
}

/// A comma-separated run of `n` two-column value tuples, as a bulk
/// `VALUES` list carries.
pub open spec fn value_tuples(n: nat) -> Seq<char>
    decreases n,
{
    if n <= 1 {
        "(?, ?)"@
    } else {
        value_tuples((n - 1) as nat) + ", (?, ?)"@
    }
}

/// A run of `n` placeholders holds exactly `n` placeholders.
pub proof fn lemma_qmark_list_count(n: nat)
    requires
        n >= 1,
    ensures
        count_qmarks(qmark_list(n)) == n,
    decreases n,
{
    reveal_strlit("?");
    reveal_strlit(", ?");
    reveal_with_fuel(count_qmarks, 5);
    if n > 1 {
        lemma_qmark_list_count((n - 1) as nat);
        lemma_count_qmarks_concat(qmark_list((n - 1) as nat), ", ?"@);
    }
}

/// A run of `n` two-column tuples holds exactly `2 * n` placeholders.
pub proof fn lemma_value_tuples_count(n: nat)
    requires
        n >= 1,
    ensures
        count_qmarks(value_tuples(n)) == 2 * n,
    decreases n,
{
    reveal_strlit("(?, ?)");
    reveal_strlit(", (?, ?)");
    reveal_with_fuel(count_qmarks, 10);
    if n > 1 {
        lemma_value_tuples_count((n - 1) as nat);
        lemma_count_qmarks_concat(value_tuples((n - 1) as nat), ", (?, ?)"@);
    }
}

/// Counts the positional placeholders of a statement text.
pub fn count_placeholders(s: &str) -> (n: usize)
    ensures
        n == count_qmarks(s@),
{
    let len = s.unicode_len();
    let mut n: usize = 0;
    let mut i: usize = 0;
    while i < len
        invariant
            i <= len,
            len == s@.len(),
            n <= i,
            n == count_qmarks(s@.take(i as int)),
        decreases len - i,
    {
        proof {
            assert(s@.take(i + 1).drop_last() =~= s@.take(i as int));
            assert(s@.take(i + 1).last() == s@[i as int]);
        }
        if s.get_char(i) == '?' {
            n = n + 1;
        }
        i = i + 1;
    }
    proof {
        assert(s@.take(len as int) =~= s@);
    }
    n
}

/// Appends a run of `n` two-column value tuples to the statement text.
fn append_value_tuples(sql: &mut String, n: usize)
    requires
        n >= 1,
    ensures
        final(sql)@ == old(sql)@ + value_tuples(n as nat),
{
    sql.append("(?, ?)");
    let mut k: usize = 1;
    while k < n
        invariant
            1 <= k <= n,
            sql@ == old(sql)@ + value_tuples(k as nat),
        decreases n - k,
    {
        sql.append(", (?, ?)");
        proof {
            assert(old(sql)@ + value_tuples((k + 1) as nat) =~= (old(sql)@ + value_tuples(
                k as nat,
            )) + ", (?, ?)"@);
        }
        k = k + 1;
    }
}

/// Appends a run of `n` placeholders to the statement text.
fn append_qmark_list(sql: &mut String, n: usize)
    requires
        n >= 1,
    ensures
        final(sql)@ == old(sql)@ + qmark_list(n as nat),
{
    sql.append("?");
    let mut k: usize = 1;
    while k < n
        invariant
            1 <= k <= n,
            sql@ == old(sql)@ + qmark_list(k as nat),
        decreases n - k,
    {
        sql.append(", ?");
        proof {
            assert(old(sql)@ + qmark_list((k + 1) as nat) =~= (old(sql)@ + qmark_list(k as nat))
                + ", ?"@);
        }
        k = k + 1;
    }
}

/// Builds the list scan.
pub fn build_select_lists(with_deleted: bool) -> (r: SqlQuery)
    ensures
        r.sql@ == sql_select_lists(with_deleted),
        r.params@.len() == 0,
{
    let mut sql = String::from_str("SELECT * FROM ");
    sql.append("todo_lists");
    if !with_deleted {
        sql.append(" WHERE deleted_at IS NULL");
    }
    SqlQuery { sql, params: Vec::new() }
}

/// Builds the title lookup; the title travels as the one bound
/// parameter, never in the statement text.
pub fn build_select_list_by_title(todo_title: &str) -> (r: SqlQuery)
    ensures
        r.sql@ == sql_select_list_by_title(),
        r.params@.len() == 1,
        (r.params@[0] matches SqlParam::Text(t) && t@ == todo_title@),
{
    let mut sql = String::from_str("SELECT * FROM ");
    sql.append("todo_lists");
    sql.append(" WHERE title = ");
    sql.append("?");
    sql.append(" AND deleted_at IS NULL");
    let mut params: Vec<SqlParam> = Vec::new();
    params.push(SqlParam::Text(todo_title.to_owned()));
    SqlQuery { sql, params }
}

/// Builds the single-row list insert; the title is bound, not spliced.
pub fn build_insert_list(title: &str) -> (r: SqlQuery)
    ensures
        r.sql@ == sql_insert_list(),
        r.params@.len() == 1,
        (r.params@[0] matches SqlParam::Text(t) && t@ == title@),
{
    let mut sql = String::from_str("INSERT INTO ");
    sql.append("todo_lists (title) ");
    sql.append("VALUES ");
    sql.append("(?)");
    let mut params: Vec<SqlParam> = Vec::new();
    params.push(SqlParam::Text(title.to_owned()));
    SqlQuery { sql, params }
}

/// Builds the scoped item scan.
pub fn build_select_items(todo_list_id: u32, with_deleted: bool) -> (r: SqlQuery)
    ensures
        r.sql@ == sql_select_items(with_deleted),
        r.params@ == seq![SqlParam::Uint(todo_list_id)],
{
    let mut sql = String::from_str("SELECT * FROM ");
    sql.append("todo_list_items");
    sql.append(" WHERE todo_list_id = ");
    sql.append("?");
    if !with_deleted {
        sql.append(" AND deleted_at IS NULL");
    }
    let mut params: Vec<SqlParam> = Vec::new();
    params.push(SqlParam::Uint(todo_list_id));
    proof {
        assert(params@ =~= seq![SqlParam::Uint(todo_list_id)]);
    }
    SqlQuery { sql, params }
}

/// Builds the bulk item insert, or nothing for an empty title
/// collection: an empty bulk operation never reaches the store.
pub fn build_insert_items(todo_list_id: u32, items: &[String]) -> (r: Option<SqlQuery>)
    ensures
        (r is Some) == (items@.len() > 0),
        (r matches Some(q) ==> q.sql@ == sql_insert_items(items@.len()) && q.params@
            == insert_items_params(todo_list_id, items@)),
{
    if items.len() == 0 {
        return None;
    }
    let mut sql = String::from_str("INSERT INTO ");
    sql.append("todo_list_items ");
    sql.append("(todo_list_id, title) ");
    sql.append("VALUES ");
    append_value_tuples(&mut sql, items.len());
    sql.append(" RETURNING *");
    let mut params: Vec<SqlParam> = Vec::new();
    let mut k: usize = 0;
    while k < items.len()
        invariant
            k <= items@.len(),
            params@.len() == 2 * k,
            forall|i: int| 0 <= i < 2 * k ==> params@[i] == insert_items_params(
                todo_list_id,
                items@,
            )[i],
        decreases items@.len() - k,
    {
        params.push(SqlParam::Uint(todo_list_id));
        params.push(SqlParam::Text(items[k].clone()));
        k = k + 1;
    }
    proof {
        assert(params@ =~= insert_items_params(todo_list_id, items@));
    }
    Some(SqlQuery { sql, params })
}

/// Builds the bulk keyed title update, or nothing for an empty pair
/// collection.
pub fn build_update_titles(todo_list_id: u32, id_and_item_pairs: &[(u32, String)]) -> (r: Option<
    SqlQuery,
>)
    ensures
        (r is Some) == (id_and_item_pairs@.len() > 0),
        (r matches Some(q) ==> q.sql@ == sql_update_titles(id_and_item_pairs@.len()) && q.params@
            == update_titles_params(todo_list_id, id_and_item_pairs@)),
{
    if id_and_item_pairs.len() == 0 {
        return None;
    }
    let mut sql = String::from_str("WITH tmp(id, title) AS (");
    sql.append("VALUES ");
    append_value_tuples(&mut sql, id_and_item_pairs.len());
    sql.append(")");
    sql.append(" UPDATE todo_list_items");
    sql.append(" SET title = ");
    sql.append("(SELECT title FROM tmp");
    sql.append(" WHERE todo_list_items.id");
    sql.append(" = tmp.id)");
    sql.append(" WHERE deleted_at IS NULL");
    sql.append(" AND id IN ");
    sql.append("(SELECT id FROM tmp)");
    sql.append(" AND todo_list_id = ");
    sql.append("?");
    sql.append(" RETURNING *");
    let mut params: Vec<SqlParam> = Vec::new();
    let mut k: usize = 0;
    while k < id_and_item_pairs.len()
        invariant
            k <= id_and_item_pairs@.len(),
            params@.len() == 2 * k,
            forall|i: int| 0 <= i < 2 * k ==> params@[i] == update_titles_params(
                todo_list_id,
                id_and_item_pairs@,
            )[i],
        decreases id_and_item_pairs@.len() - k,
    {
        params.push(SqlParam::Uint(id_and_item_pairs[k].0));
        params.push(SqlParam::Text(id_and_item_pairs[k].1.clone()));
        k = k + 1;
    }
    params.push(SqlParam::Uint(todo_list_id));
    proof {
        assert(params@ =~= update_titles_params(todo_list_id, id_and_item_pairs@));
    }
    Some(SqlQuery { sql, params })
}

/// Builds the bulk completion stamp, or nothing for an empty id set.
pub fn build_stamp_done(todo_list_id: u32, ids: &[u32]) -> (r: Option<SqlQuery>)
    ensures
        (r is Some) == (ids@.len() > 0),
        (r matches Some(q) ==> q.sql@ == sql_stamp_done(ids@.len()) && q.params@ == stamp_params(
            todo_list_id,
            ids@,
        )),
{
    if ids.len() == 0 {
        return None;
    }
    let mut sql = String::from_str("UPDATE todo_list_items");
    sql.append(" SET done_at");
    sql.append(" = datetime('now')");
    sql.append(" WHERE deleted_at IS NULL");
    sql.append(" AND todo_list_id = ");
    sql.append("?");
    sql.append(" AND id IN (");
    append_qmark_list(&mut sql, ids.len());
    sql.append(")");
    let params = stamp_param_vec(todo_list_id, ids);
    Some(SqlQuery { sql, params })
}

/// Builds the bulk soft-delete stamp, or nothing for an empty id set.
pub fn build_stamp_removed(todo_list_id: u32, ids: &[u32]) -> (r: Option<SqlQuery>)
    ensures
        (r is Some) == (ids@.len() > 0),
        (r matches Some(q) ==> q.sql@ == sql_stamp_removed(ids@.len()) && q.params@
            == stamp_params(todo_list_id, ids@)),
{
    if ids.len() == 0 {
        return None;
    }
    let mut sql = String::from_str("UPDATE todo_list_items");
    sql.append(" SET deleted_at");
    sql.append(" = datetime('now')");
    sql.append(" WHERE deleted_at IS NULL");
    sql.append(" AND todo_list_id = ");
    sql.append("?");
    sql.append(" AND id IN (");
    append_qmark_list(&mut sql, ids.len());
    sql.append(")");
    let params = stamp_param_vec(todo_list_id, ids);
    Some(SqlQuery { sql, params })
}

/// Builds the whole-list soft-delete stamp.
pub fn build_clear_items(todo_list_id: u32) -> (r: SqlQuery)
    ensures
        r.sql@ == sql_clear_items(),
        r.params@ == seq![SqlParam::Uint(todo_list_id)],
{
    let mut sql = String::from_str("UPDATE todo_list_items");
    sql.append(" SET deleted_at");
    sql.append(" = datetime('now')");
    sql.append(" WHERE deleted_at IS NULL");
    sql.append(" AND todo_list_id = ");
    sql.append("?");
    let mut params: Vec<SqlParam> = Vec::new();
    params.push(SqlParam::Uint(todo_list_id));
    proof {
        assert(params@ =~= seq![SqlParam::Uint(todo_list_id)]);
    }
    SqlQuery { sql, params }
}

/// The owning list id followed by the targeted ids, in binding order.
fn stamp_param_vec(todo_list_id: u32, ids: &[u32]) -> (params: Vec<SqlParam>)
    ensures
        params@ == stamp_params(todo_list_id, ids@),
{
    let mut params: Vec<SqlParam> = Vec::new();
    params.push(SqlParam::Uint(todo_list_id));
    let mut k: usize = 0;
    while k < ids.len()
        invariant
            k <= ids@.len(),
            params@.len() == k + 1,
            forall|i: int| 0 <= i < k + 1 ==> params@[i] == stamp_params(todo_list_id, ids@)[i],
        decreases ids@.len() - k,
    {
        params.push(SqlParam::Uint(ids[k]));
        k = k + 1;
    }
    proof {
        assert(params@ =~= stamp_params(todo_list_id, ids@));
    }
    params
}

/// The scan of the `todo_lists` table.
pub open spec fn sql_select_lists(with_deleted: bool) -> Seq<char> {
    if with_deleted {
        "SELECT * FROM "@ + "todo_lists"@
    } else {
        "SELECT * FROM "@ + "todo_lists"@ + " WHERE deleted_at IS NULL"@
    }
}

/// The title lookup on non-deleted lists.
pub open spec fn sql_select_list_by_title() -> Seq<char> {
    "SELECT * FROM "@ + "todo_lists"@ + " WHERE title = "@ + "?"@ + " AND deleted_at IS NULL"@
}

/// The single-row list insert.
pub open spec fn sql_insert_list() -> Seq<char> {
    "INSERT INTO "@ + "todo_lists (title) "@ + "VALUES "@ + "(?)"@
}

/// The scoped scan of one list's items.
pub open spec fn sql_select_items(with_deleted: bool) -> Seq<char> {
    let base = "SELECT * FROM "@ + "todo_list_items"@ + " WHERE todo_list_id = "@ + "?"@;
    if with_deleted {
        base
    } else {
        base + " AND deleted_at IS NULL"@
    }
}

/// The bulk item insert returning the inserted rows; `n` is the number
/// of inserted rows and must be positive.
pub open spec fn sql_insert_items(n: nat) -> Seq<char> {
    "INSERT INTO "@ + "todo_list_items "@ + "(todo_list_id, title) "@ + "VALUES "@
        + value_tuples(n) + " RETURNING *"@
}

/// The bulk keyed title update over an inline value table of `n` pairs;
/// `n` must be positive.
pub open spec fn sql_update_titles(n: nat) -> Seq<char> {
    "WITH tmp(id, title) AS ("@ + "VALUES "@ + value_tuples(n) + ")"@
        + " UPDATE todo_list_items"@ + " SET title = "@ + "(SELECT title FROM tmp"@
        + " WHERE todo_list_items.id"@ + " = tmp.id)"@ + " WHERE deleted_at IS NULL"@
        + " AND id IN "@ + "(SELECT id FROM tmp)"@ + " AND todo_list_id = "@ + "?"@
        + " RETURNING *"@
}

/// The bulk completion stamp over `n` ids; `n` must be positive.
pub open spec fn sql_stamp_done(n: nat) -> Seq<char> {
    "UPDATE todo_list_items"@ + " SET done_at"@ + " = datetime('now')"@
        + " WHERE deleted_at IS NULL"@ + " AND todo_list_id = "@ + "?"@ + " AND id IN ("@
        + qmark_list(n) + ")"@
}

/// The bulk soft-delete stamp over `n` ids; `n` must be positive.
pub open spec fn sql_stamp_removed(n: nat) -> Seq<char> {
    "UPDATE todo_list_items"@ + " SET deleted_at"@ + " = datetime('now')"@
        + " WHERE deleted_at IS NULL"@ + " AND todo_list_id = "@ + "?"@ + " AND id IN ("@
        + qmark_list(n) + ")"@
}

/// The whole-list soft-delete stamp.
pub open spec fn sql_clear_items() -> Seq<char> {
    "UPDATE todo_list_items"@ + " SET deleted_at"@ + " = datetime('now')"@
        + " WHERE deleted_at IS NULL"@ + " AND todo_list_id = "@ + "?"@
}

/// The parameters of the bulk item insert: each tuple binds the owning
/// list id, then the item's title.
pub open spec fn insert_items_params(todo_list_id: u32, titles: Seq<String>) -> Seq<SqlParam> {
    Seq::new(
        2 * titles.len(),
        |i: int| if i % 2 == 0 {
            SqlParam::Uint(todo_list_id)
        } else {
            SqlParam::Text(titles[i / 2])
        },
    )
}

/// The parameters of the bulk keyed title update: each pair binds its
/// id, then its title; the owning list id is bound last.
pub open spec fn update_titles_params(todo_list_id: u32, pairs: Seq<(u32, String)>) -> Seq<SqlParam> {
    Seq::new(
        2 * pairs.len() + 1,
        |i: int| if i == 2 * pairs.len() {
            SqlParam::Uint(todo_list_id)
        } else if i % 2 == 0 {
            SqlParam::Uint(pairs[i / 2].0)
        } else {
            SqlParam::Text(pairs[i / 2].1)
        },
    )
}

/// The parameters of a bulk status stamp: the owning list id, then the
/// targeted ids in order.
pub open spec fn stamp_params(todo_list_id: u32, ids: Seq<u32>) -> Seq<SqlParam> {
    Seq::new(
        ids.len() + 1,
        |i: int| if i == 0 {
            SqlParam::Uint(todo_list_id)
        } else {
            SqlParam::Uint(ids[i - 1])
        },
    )
}

/// Placeholder counts of the atoms the list statements are built from.
proof fn lemma_list_atom_counts()
    ensures
        count_qmarks("SELECT * FROM "@) == 0,
        count_qmarks("todo_lists"@) == 0,
        count_qmarks(" WHERE deleted_at IS NULL"@) == 0,
        count_qmarks(" WHERE title = "@) == 0,
        count_qmarks("?"@) == 1,
        count_qmarks(" AND deleted_at IS NULL"@) == 0,
        count_qmarks("INSERT INTO "@) == 0,
        count_qmarks("todo_lists (title) "@) == 0,
        count_qmarks("VALUES "@) == 0,
        count_qmarks("(?)"@) == 1,
{
    reveal_strlit("SELECT * FROM ");
    reveal_strlit("todo_lists");
    reveal_strlit(" WHERE deleted_at IS NULL");
    reveal_strlit(" WHERE title = ");
    reveal_strlit("?");
    reveal_strlit(" AND deleted_at IS NULL");
    reveal_strlit("INSERT INTO ");
    reveal_strlit("todo_lists (title) ");
    reveal_strlit("VALUES ");
    reveal_strlit("(?)");
    reveal_with_fuel(count_qmarks, 27);
}

/// Placeholder counts of the atoms the item statements are built from.
proof fn lemma_item_atom_counts()
    ensures
        count_qmarks("todo_list_items"@) == 0,
        count_qmarks(" WHERE todo_list_id = "@) == 0,
        count_qmarks("todo_list_items "@) == 0,
        count_qmarks("(todo_list_id, title) "@) == 0,
        count_qmarks(" RETURNING *"@) == 0,
        count_qmarks("UPDATE todo_list_items"@) == 0,
        count_qmarks(" SET done_at"@) == 0,
        count_qmarks(" SET deleted_at"@) == 0,
        count_qmarks(" = datetime('now')"@) == 0,
        count_qmarks(" AND todo_list_id = "@) == 0,
        count_qmarks(" AND id IN ("@) == 0,
        count_qmarks(")"@) == 0,
{
    reveal_strlit("todo_list_items");
    reveal_strlit(" WHERE todo_list_id = ");
    reveal_strlit("todo_list_items ");
    reveal_strlit("(todo_list_id, title) ");
    reveal_strlit(" RETURNING *");
    reveal_strlit("UPDATE todo_list_items");
    reveal_strlit(" SET done_at");
    reveal_strlit(" SET deleted_at");
    reveal_strlit(" = datetime('now')");
    reveal_strlit(" AND todo_list_id = ");
    reveal_strlit(" AND id IN (");
    reveal_strlit(")");
    reveal_with_fuel(count_qmarks, 25);
}

/// Placeholder counts of the atoms the keyed update is built from.
proof fn lemma_update_atom_counts()
    ensures
        count_qmarks("WITH tmp(id, title) AS ("@) == 0,
        count_qmarks(" UPDATE todo_list_items"@) == 0,
        count_qmarks(" SET title = "@) == 0,
        count_qmarks("(SELECT title FROM tmp"@) == 0,
        count_qmarks(" WHERE todo_list_items.id"@) == 0,
        count_qmarks(" = tmp.id)"@) == 0,
        count_qmarks(" AND id IN "@) == 0,
        count_qmarks("(SELECT id FROM tmp)"@) == 0,
{
    reveal_strlit("WITH tmp(id, title) AS (");
    reveal_strlit(" UPDATE todo_list_items");
    reveal_strlit(" SET title = ");
    reveal_strlit("(SELECT title FROM tmp");
    reveal_strlit(" WHERE todo_list_items.id");
    reveal_strlit(" = tmp.id)");
    reveal_strlit(" AND id IN ");
    reveal_strlit("(SELECT id FROM tmp)");
    reveal_with_fuel(count_qmarks, 27);
}

/// Every list statement binds exactly as many parameters as it holds
/// placeholders.
pub proof fn lemma_list_statement_placeholders(with_deleted: bool)
    ensures
        count_qmarks(sql_select_lists(with_deleted)) == 0,
        count_qmarks(sql_select_list_by_title()) == 1,
        count_qmarks(sql_insert_list()) == 1,
{
    lemma_list_atom_counts();
    lemma_count_qmarks_concat("SELECT * FROM "@, "todo_lists"@);
    lemma_count_qmarks_concat("SELECT * FROM "@ + "todo_lists"@, " WHERE deleted_at IS NULL"@);
    lemma_count_qmarks_concat("SELECT * FROM "@ + "todo_lists"@, " WHERE title = "@);
    lemma_count_qmarks_concat("SELECT * FROM "@ + "todo_lists"@ + " WHERE title = "@, "?"@);
    lemma_count_qmarks_concat(
        "SELECT * FROM "@ + "todo_lists"@ + " WHERE title = "@ + "?"@,
        " AND deleted_at IS NULL"@,
    );
    lemma_count_qmarks_concat("INSERT INTO "@, "todo_lists (title) "@);
    lemma_count_qmarks_concat("INSERT INTO "@ + "todo_lists (title) "@, "VALUES "@);
    lemma_count_qmarks_concat("INSERT INTO "@ + "todo_lists (title) "@ + "VALUES "@, "(?)"@);
}

/// The scoped item scan binds exactly one parameter.
pub proof fn lemma_select_items_placeholders(with_deleted: bool)
    ensures
        count_qmarks(sql_select_items(with_deleted)) == 1,
{
    lemma_list_atom_counts();
    lemma_item_atom_counts();
    let base = "SELECT * FROM "@ + "todo_list_items"@ + " WHERE todo_list_id = "@ + "?"@;
    lemma_count_qmarks_concat("SELECT * FROM "@, "todo_list_items"@);
    lemma_count_qmarks_concat("SELECT * FROM "@ + "todo_list_items"@, " WHERE todo_list_id = "@);
    lemma_count_qmarks_concat(
        "SELECT * FROM "@ + "todo_list_items"@ + " WHERE todo_list_id = "@,
        "?"@,
    );
    lemma_count_qmarks_concat(base, " AND deleted_at IS NULL"@);
}

/// The bulk insert of `n` items holds one placeholder per bound
/// parameter: two per inserted row.
pub proof fn lemma_insert_items_placeholders(n: nat)
    requires
        n >= 1,
    ensures
        count_qmarks(sql_insert_items(n)) == 2 * n,
{
    lemma_list_atom_counts();
    lemma_item_atom_counts();
    lemma_value_tuples_count(n);
    lemma_count_qmarks_concat("INSERT INTO "@, "todo_list_items "@);
    lemma_count_qmarks_concat("INSERT INTO "@ + "todo_list_items "@, "(todo_list_id, title) "@);
    lemma_count_qmarks_concat(
        "INSERT INTO "@ + "todo_list_items "@ + "(todo_list_id, title) "@,
        "VALUES "@,
    );
    lemma_count_qmarks_concat(
        "INSERT INTO "@ + "todo_list_items "@ + "(todo_list_id, title) "@ + "VALUES "@,
        value_tuples(n),
    );
    lemma_count_qmarks_concat(
        "INSERT INTO "@ + "todo_list_items "@ + "(todo_list_id, title) "@ + "VALUES "@
            + value_tuples(n),
        " RETURNING *"@,
    );
}

/// The keyed update over `n` pairs holds one placeholder per bound
/// parameter: two per pair, plus the owning list id.
pub proof fn lemma_update_titles_placeholders(n: nat)
    requires
        n >= 1,
    ensures
        count_qmarks(sql_update_titles(n)) == 2 * n + 1,
{
    lemma_list_atom_counts();
    lemma_item_atom_counts();
    lemma_update_atom_counts();
    lemma_value_tuples_count(n);
    let p1 = "WITH tmp(id, title) AS ("@;
    let p2 = p1 + "VALUES "@;
    let p3 = p2 + value_tuples(n);
    let p4 = p3 + ")"@;
    let p5 = p4 + " UPDATE todo_list_items"@;
    let p6 = p5 + " SET title = "@;
    let p7 = p6 + "(SELECT title FROM tmp"@;
    let p8 = p7 + " WHERE todo_list_items.id"@;
    let p9 = p8 + " = tmp.id)"@;
    let p10 = p9 + " WHERE deleted_at IS NULL"@;
    let p11 = p10 + " AND id IN "@;
    let p12 = p11 + "(SELECT id FROM tmp)"@;
    let p13 = p12 + " AND todo_list_id = "@;
    let p14 = p13 + "?"@;
    lemma_count_qmarks_concat(p1, "VALUES "@);
    lemma_count_qmarks_concat(p2, value_tuples(n));
    lemma_count_qmarks_concat(p3, ")"@);
    lemma_count_qmarks_concat(p4, " UPDATE todo_list_items"@);
    lemma_count_qmarks_concat(p5, " SET title = "@);
    lemma_count_qmarks_concat(p6, "(SELECT title FROM tmp"@);
    lemma_count_qmarks_concat(p7, " WHERE todo_list_items.id"@);
    lemma_count_qmarks_concat(p8, " = tmp.id)"@);
    lemma_count_qmarks_concat(p9, " WHERE deleted_at IS NULL"@);
    lemma_count_qmarks_concat(p10, " AND id IN "@);
    lemma_count_qmarks_concat(p11, "(SELECT id FROM tmp)"@);
    lemma_count_qmarks_concat(p12, " AND todo_list_id = "@);
    lemma_count_qmarks_concat(p13, "?"@);
    lemma_count_qmarks_concat(p14, " RETURNING *"@);
}

/// The status stamps over `n` ids, and the whole-list clear, hold one
/// placeholder per bound parameter.
pub proof fn lemma_stamp_placeholders(n: nat)
    requires
        n >= 1,
    ensures
        count_qmarks(sql_stamp_done(n)) == n + 1,
        count_qmarks(sql_stamp_removed(n)) == n + 1,
        count_qmarks(sql_clear_items()) == 1,
{
    lemma_list_atom_counts();
    lemma_item_atom_counts();
    lemma_qmark_list_count(n);
    let d1 = "UPDATE todo_list_items"@ + " SET done_at"@;
    let r1 = "UPDATE todo_list_items"@ + " SET deleted_at"@;
    lemma_count_qmarks_concat("UPDATE todo_list_items"@, " SET done_at"@);
    lemma_count_qmarks_concat("UPDATE todo_list_items"@, " SET deleted_at"@);
    lemma_count_qmarks_concat(d1, " = datetime('now')"@);
    lemma_count_qmarks_concat(r1, " = datetime('now')"@);
    lemma_count_qmarks_concat(d1 + " = datetime('now')"@, " WHERE deleted_at IS NULL"@);
    lemma_count_qmarks_concat(r1 + " = datetime('now')"@, " WHERE deleted_at IS NULL"@);
    lemma_count_qmarks_concat(
        d1 + " = datetime('now')"@ + " WHERE deleted_at IS NULL"@,
        " AND todo_list_id = "@,
    );
    lemma_count_qmarks_concat(
        r1 + " = datetime('now')"@ + " WHERE deleted_at IS NULL"@,
        " AND todo_list_id = "@,
    );
    let d2 = d1 + " = datetime('now')"@ + " WHERE deleted_at IS NULL"@ + " AND todo_list_id = "@;
    let r2 = r1 + " = datetime('now')"@ + " WHERE deleted_at IS NULL"@ + " AND todo_list_id = "@;
    lemma_count_qmarks_concat(d2, "?"@);
    lemma_count_qmarks_concat(r2, "?"@);
    lemma_count_qmarks_concat(d2 + "?"@, " AND id IN ("@);
    lemma_count_qmarks_concat(r2 + "?"@, " AND id IN ("@);
    lemma_count_qmarks_concat(d2 + "?"@ + " AND id IN ("@, qmark_list(n));
    lemma_count_qmarks_concat(r2 + "?"@ + " AND id IN ("@, qmark_list(n));
    lemma_count_qmarks_concat(d2 + "?"@ + " AND id IN ("@ + qmark_list(n), ")"@);
    lemma_count_qmarks_concat(r2 + "?"@ + " AND id IN ("@ + qmark_list(n), ")"@);
}

} // verus!
