//! Properties of the repository semantics that relate several
//! operations, stated and proved over the same transition functions the
//! repository's contracts use.

use vstd::prelude::*;
use crate::store::{TodoListRow, TodoListItemRow, Store, list_live, find_list, item_visible,
    visible_items, item_matches, mark_done_one, mark_done_items, remove_one, remove_items};

verus! {

/// A bulk completion stamp touches exactly the matching rows: every
/// non-deleted item of the targeted list whose id is in the (non-empty)
/// id set gets `done_at = now`, and every other row is returned as it
/// was.
pub proof fn lemma_mark_done_exact(
    items: Seq<TodoListItemRow>,
    todo_list_id: u32,
    ids: Seq<u32>,
    now: u32,
)
    requires
        ids.len() > 0,
    ensures
        mark_done_items(items, todo_list_id, ids, now).len() == items.len(),
        forall|j: int|
            0 <= j < items.len() && item_matches(#[trigger] items[j], todo_list_id, ids)
                ==> mark_done_items(items, todo_list_id, ids, now)[j] == (TodoListItemRow {
                done_at: Some(now),
                ..items[j]
            }),
        forall|j: int|
            0 <= j < items.len() && !item_matches(#[trigger] items[j], todo_list_id, ids)
                ==> mark_done_items(items, todo_list_id, ids, now)[j] == items[j],
{
}

/// Every element a scoped scan returns is a row of the table that the
/// scan's visibility rules accept, and every such row is returned.
pub proof fn lemma_visible_items_elements(
    items: Seq<TodoListItemRow>,
    todo_list_id: u32,
    with_deleted: bool,
)
    ensures
        forall|k: int|
            0 <= k < visible_items(items, todo_list_id, with_deleted).len() ==> items.contains(
                #[trigger] visible_items(items, todo_list_id, with_deleted)[k],
            ) && item_visible(
                visible_items(items, todo_list_id, with_deleted)[k],
                todo_list_id,
                with_deleted,
            ),
        forall|j: int|
            0 <= j < items.len() && item_visible(#[trigger] items[j], todo_list_id, with_deleted)
                ==> visible_items(items, todo_list_id, with_deleted).contains(items[j]),
    decreases items.len(),
{
    let vis = visible_items(items, todo_list_id, with_deleted);
    if items.len() > 0 {
        let rest = items.drop_last();
        lemma_visible_items_elements(rest, todo_list_id, with_deleted);
        let vis_rest = visible_items(rest, todo_list_id, with_deleted);
        assert forall|k: int|
            0 <= k < vis.len() implies items.contains(#[trigger] vis[k]) && item_visible(
            vis[k],
            todo_list_id,
            with_deleted,
        ) by {
            if k < vis_rest.len() {
                assert(rest.contains(vis_rest[k]));
                let j = choose|j: int| 0 <= j < rest.len() && rest[j] == vis_rest[k];
                assert(items[j] == vis_rest[k]);
            } else {
                assert(vis[k] == items.last());
                assert(items[items.len() - 1] == items.last());
            }
        }
        assert forall|j: int|
            0 <= j < items.len() && item_visible(#[trigger] items[j], todo_list_id, with_deleted)
            implies vis.contains(items[j]) by {
            if j < items.len() - 1 {
                assert(rest[j] == items[j]);
                assert(vis_rest.contains(items[j]));
                let k = choose|k: int| 0 <= k < vis_rest.len() && vis_rest[k] == items[j];
                assert(vis[k] == items[j]);
            } else {
                assert(vis[vis.len() - 1] == items[j]);
            }
        }
    }
}

/// After a bulk removal, a default scoped scan of the targeted list
/// never returns a row whose id was in the removed id set, while a scan
/// that includes deleted rows still returns every id it removed.
pub proof fn lemma_remove_then_list(
    items: Seq<TodoListItemRow>,
    todo_list_id: u32,
    ids: Seq<u32>,
    now: u32,
)
    ensures
        forall|k: int|
            0 <= k < visible_items(remove_items(items, todo_list_id, ids, now), todo_list_id, false).len()
                ==> !ids.contains(
                #[trigger] visible_items(
                    remove_items(items, todo_list_id, ids, now),
                    todo_list_id,
                    false,
                )[k].id,
            ),
        forall|j: int|
            0 <= j < items.len() && item_matches(#[trigger] items[j], todo_list_id, ids)
                ==> exists|k: int|
                0 <= k < visible_items(remove_items(items, todo_list_id, ids, now), todo_list_id, true).len()
                    && visible_items(remove_items(items, todo_list_id, ids, now), todo_list_id, true)[k].id
                    == items[j].id,
{
    let removed = remove_items(items, todo_list_id, ids, now);
    lemma_visible_items_elements(removed, todo_list_id, false);
    lemma_visible_items_elements(removed, todo_list_id, true);
    let vis = visible_items(removed, todo_list_id, false);
    assert forall|k: int| 0 <= k < vis.len() implies !ids.contains(#[trigger] vis[k].id) by {
        assert(removed.contains(vis[k]));
        let j = choose|j: int| 0 <= j < removed.len() && removed[j] == vis[k];
        assert(removed[j] == remove_one(items[j], todo_list_id, ids, now));
        assert(!item_matches(items[j], todo_list_id, ids));
    }
    let vis_all = visible_items(removed, todo_list_id, true);
    assert forall|j: int|
        0 <= j < items.len() && item_matches(#[trigger] items[j], todo_list_id, ids)
        implies exists|k: int|
        0 <= k < vis_all.len() && vis_all[k].id == items[j].id by {
        assert(removed[j] == remove_one(items[j], todo_list_id, ids, now));
        assert(item_visible(removed[j], todo_list_id, true));
        assert(vis_all.contains(removed[j]));
        let k = choose|k: int| 0 <= k < vis_all.len() && vis_all[k] == removed[j];
        assert(vis_all[k].id == items[j].id);
    }
}

/// A title lookup scans past rows that do not match and stops at an
/// appended matching row.
pub proof fn lemma_find_list_push(lists: Seq<TodoListRow>, row: TodoListRow, title: Seq<char>)
    requires
        find_list(lists, title) is None,
        list_live(row),
        row.title@ == title,
    ensures
        find_list(lists.push(row), title) == Some(row),
    decreases lists.len(),
{
    if lists.len() == 0 {
        assert(lists.push(row)[0] == row);
    } else {
        assert(lists.push(row)[0] == lists[0]);
        assert(lists.push(row).drop_first() =~= lists.drop_first().push(row));
        lemma_find_list_push(lists.drop_first(), row, title);
    }
}

/// Round trip: creating a list and then resolving the same title finds
/// exactly the row the creation handed back.
pub proof fn lemma_create_find_round_trip(
    pre: Store,
    post: Store,
    row: TodoListRow,
    title: Seq<char>,
)
    requires
        find_list(pre.lists@, title) is None,
        row.deleted_at is None,
        row.title@ == title,
        post.lists@ == pre.lists@.push(row),
    ensures
        find_list(post.lists@, title) == Some(row),
{
    lemma_find_list_push(pre.lists@, row, title);
}

/// Two items agree on everything a reader of the store can observe
/// apart from raw timestamps: identity, ownership, title, done-ness and
/// deletion status.
pub open spec fn item_same_visible(a: TodoListItemRow, b: TodoListItemRow) -> bool {
    &&& a.id == b.id
    &&& a.todo_list_id == b.todo_list_id
    &&& a.title@ == b.title@
    &&& (a.done_at is Some) == (b.done_at is Some)
    &&& (a.deleted_at is Some) == (b.deleted_at is Some)
    &&& a.created_at == b.created_at
}

/// Stamping the same id set done twice leaves the same visible state as
/// stamping it once: the completion timestamp may refresh, but
/// done-status, titles and deletion status do not change again.
pub proof fn lemma_mark_done_idempotent(
    items: Seq<TodoListItemRow>,
    todo_list_id: u32,
    ids: Seq<u32>,
    t1: u32,
    t2: u32,
)
    ensures
        mark_done_items(mark_done_items(items, todo_list_id, ids, t1), todo_list_id, ids, t2).len()
            == mark_done_items(items, todo_list_id, ids, t1).len(),
        forall|j: int|
            0 <= j < items.len() ==> item_same_visible(
                #[trigger] mark_done_items(
                    mark_done_items(items, todo_list_id, ids, t1),
                    todo_list_id,
                    ids,
                    t2,
                )[j],
                mark_done_items(items, todo_list_id, ids, t1)[j],
            ),
{
    let once = mark_done_items(items, todo_list_id, ids, t1);
    let twice = mark_done_items(once, todo_list_id, ids, t2);
    assert forall|j: int| 0 <= j < items.len() implies item_same_visible(
        #[trigger] twice[j],
        once[j],
    ) by {
        assert(once[j] == mark_done_one(items[j], todo_list_id, ids, t1));
        assert(twice[j] == mark_done_one(once[j], todo_list_id, ids, t2));
    }
}

} // verus!
