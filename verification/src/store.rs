//! Rows and the logical state of the to-do store.
//!
//! The store owns two tables: named to-do lists and their items. Rows are
//! never hard-deleted; a timestamp in `deleted_at` soft-deletes a row and
//! excludes it from default reads. All repository operations are specified
//! as pure transitions over the row sequences.

use vstd::prelude::*;

verus! {

/// A row of the `todo_lists` table. Timestamps are seconds since the epoch.
#[derive(Debug)]
pub struct TodoListRow {
    pub id: u32,
    pub title: String,
    pub deleted_at: Option<u32>,
    pub created_at: u32,
    pub updated_at: u32,
}

/// A row of the `todo_list_items` table.
#[derive(Debug)]
pub struct TodoListItemRow {
    pub id: u32,
    pub todo_list_id: u32,
    pub title: String,
    pub done_at: Option<u32>,
    pub deleted_at: Option<u32>,
    pub created_at: u32,
    pub updated_at: u32,
}

impl TodoListRow {
    pub fn id(&self) -> (r: u32)
        ensures
            r == self.id,
    {
        self.id
    }

    pub fn title(&self) -> (r: &str)
        ensures
            r@ == self.title@,
    {
        self.title.as_str()
    }

    pub fn deleted_at(&self) -> (r: Option<u32>)
        ensures
            r == self.deleted_at,
    {
        self.deleted_at
    }

    pub fn created_at(&self) -> (r: u32)
        ensures
            r == self.created_at,
    {
        self.created_at
    }

    pub fn updated_at(&self) -> (r: u32)
        ensures
            r == self.updated_at,
    {
        self.updated_at
    }
}

impl Clone for TodoListRow {
    fn clone(&self) -> (r: Self)
        ensures
            r == *self,
    {
        TodoListRow {
            id: self.id,
            title: self.title.clone(),
            deleted_at: self.deleted_at,
            created_at: self.created_at,
            updated_at: self.updated_at,
        }
    }
}

impl TodoListItemRow {
    pub fn id(&self) -> (r: u32)
        ensures
            r == self.id,
    {
        self.id
    }

    pub fn todo_list_id(&self) -> (r: u32)
        ensures
            r == self.todo_list_id,
    {
        self.todo_list_id
    }

    pub fn title(&self) -> (r: &str)
        ensures
            r@ == self.title@,
    {
        self.title.as_str()
    }

    pub fn done_at(&self) -> (r: Option<u32>)
        ensures
            r == self.done_at,
    {
        self.done_at
    }

    pub fn is_done(&self) -> (r: bool)
        ensures
            r == (self.done_at is Some),
    {
        self.done_at.is_some()
    }

    pub fn deleted_at(&self) -> (r: Option<u32>)
        ensures
            r == self.deleted_at,
    {
        self.deleted_at
    }

    pub fn is_deleted(&self) -> (r: bool)
        ensures
            r == (self.deleted_at is Some),
    {
        self.deleted_at.is_some()
    }

    pub fn created_at(&self) -> (r: u32)
        ensures
            r == self.created_at,
    {
        self.created_at
    }

    pub fn updated_at(&self) -> (r: u32)
        ensures
            r == self.updated_at,
    {
        self.updated_at
    }
}

impl Clone for TodoListItemRow {
    fn clone(&self) -> (r: Self)
        ensures
            r == *self,
    {
        TodoListItemRow {
            id: self.id,
            todo_list_id: self.todo_list_id,
            title: self.title.clone(),
            done_at: self.done_at,
            deleted_at: self.deleted_at,
            created_at: self.created_at,
            updated_at: self.updated_at,
        }
    }
}

/// The logical state of the backing store: both tables plus the id
/// counters the store uses to assign fresh row ids.
pub struct Store {
    pub lists: Vec<TodoListRow>,
    pub items: Vec<TodoListItemRow>,
    pub next_list_id: u32,
    pub next_item_id: u32,
}

/// A list row is visible to default reads when it is not soft-deleted.
pub open spec fn list_live(l: TodoListRow) -> bool {
    l.deleted_at is None
}

/// An item row is visible to default reads when it is not soft-deleted.
pub open spec fn item_live(it: TodoListItemRow) -> bool {
    it.deleted_at is None
}

/// The lists returned by a scan of `todo_lists`.
pub open spec fn visible_lists(lists: Seq<TodoListRow>, with_deleted: bool) -> Seq<TodoListRow>
    decreases lists.len(),
{
    if lists.len() == 0 {
        Seq::empty()
    } else {
        let rest = visible_lists(lists.drop_last(), with_deleted);
        if with_deleted || list_live(lists.last()) {
            rest.push(lists.last())
        } else {
            rest
        }
    }
}

/// Whether a scoped scan of `todo_list_items` returns an item.
pub open spec fn item_visible(it: TodoListItemRow, todo_list_id: u32, with_deleted: bool) -> bool {
    it.todo_list_id == todo_list_id && (with_deleted || item_live(it))
}

/// The items of one list returned by a scoped scan of `todo_list_items`.
pub open spec fn visible_items(
    items: Seq<TodoListItemRow>,
    todo_list_id: u32,
    with_deleted: bool,
) -> Seq<TodoListItemRow>
    decreases items.len(),
{
    if items.len() == 0 {
        Seq::empty()
    } else {
        let rest = visible_items(items.drop_last(), todo_list_id, with_deleted);
        if item_visible(items.last(), todo_list_id, with_deleted) {
            rest.push(items.last())
        } else {
            rest
        }
    }
}

/// The first non-deleted list with the given title, as a title lookup
/// scans the table.
pub open spec fn find_list(lists: Seq<TodoListRow>, title: Seq<char>) -> Option<TodoListRow>
    decreases lists.len(),
{
    if lists.len() == 0 {
        None
    } else if list_live(lists[0]) && lists[0].title@ == title {
        Some(lists[0])
    } else {
        find_list(lists.drop_first(), title)
    }
}

/// The one domain failure the repository itself raises.
#[derive(Clone, Copy, Debug, PartialEq, Eq, Structural)]
pub enum RepoError {
    /// A non-deleted list with the requested title already exists.
    DuplicateTitle,
}

/// What a successful or failed title lookup says about the table: a hit
/// is a live row of the table with that title, and a miss means no such
/// row exists.
pub proof fn lemma_find_list_characterizes(lists: Seq<TodoListRow>, title: Seq<char>)
    ensures
        match find_list(lists, title) {
            Some(l) => lists.contains(l) && list_live(l) && l.title@ == title,
            None => forall|i: int|
                0 <= i < lists.len() ==> !(list_live(#[trigger] lists[i]) && lists[i].title@
                    == title),
        },
    decreases lists.len(),
{
    if lists.len() > 0 {
        if list_live(lists[0]) && lists[0].title@ == title {
        } else {
            lemma_find_list_characterizes(lists.drop_first(), title);
            match find_list(lists.drop_first(), title) {
                Some(l) => {
                    let j = choose|j: int|
                        0 <= j < lists.drop_first().len() && lists.drop_first()[j] == l;
                    assert(lists[j + 1] == l);
                },
                None => {
                    assert forall|i: int|
                        0 <= i < lists.len() implies !(list_live(#[trigger] lists[i])
                        && lists[i].title@ == title) by {
                        if i > 0 {
                            assert(lists.drop_first()[i - 1] == lists[i]);
                        }
                    }
                },
            }
        }
    }
}

/// Whether a bulk status stamp touches an item: the item belongs to the
/// targeted list, is not soft-deleted, and its id is in the id set.
pub open spec fn item_matches(it: TodoListItemRow, todo_list_id: u32, ids: Seq<u32>) -> bool {
    it.todo_list_id == todo_list_id && item_live(it) && ids.contains(it.id)
}

/// One item after `markDoneMany`: matching items get their completion
/// stamp set to `now`; everything else is untouched.
pub open spec fn mark_done_one(
    it: TodoListItemRow,
    todo_list_id: u32,
    ids: Seq<u32>,
    now: u32,
) -> TodoListItemRow {
    if item_matches(it, todo_list_id, ids) {
        TodoListItemRow { done_at: Some(now), ..it }
    } else {
        it
    }
}

/// The item table after `markDoneMany`.
pub open spec fn mark_done_items(
    items: Seq<TodoListItemRow>,
    todo_list_id: u32,
    ids: Seq<u32>,
    now: u32,
) -> Seq<TodoListItemRow> {
    Seq::new(items.len(), |j: int| mark_done_one(items[j], todo_list_id, ids, now))
}

/// One item after `removeMany`: matching items are soft-deleted at `now`.
pub open spec fn remove_one(
    it: TodoListItemRow,
    todo_list_id: u32,
    ids: Seq<u32>,
    now: u32,
) -> TodoListItemRow {
    if item_matches(it, todo_list_id, ids) {
        TodoListItemRow { deleted_at: Some(now), ..it }
    } else {
        it
    }
}

/// The item table after `removeMany`.
pub open spec fn remove_items(
    items: Seq<TodoListItemRow>,
    todo_list_id: u32,
    ids: Seq<u32>,
    now: u32,
) -> Seq<TodoListItemRow> {
    Seq::new(items.len(), |j: int| remove_one(items[j], todo_list_id, ids, now))
}

/// One item after `clearAll`: every non-deleted item of the list is
/// soft-deleted at `now`.
pub open spec fn clear_one(it: TodoListItemRow, todo_list_id: u32, now: u32) -> TodoListItemRow {
    if it.todo_list_id == todo_list_id && item_live(it) {
        TodoListItemRow { deleted_at: Some(now), ..it }
    } else {
        it
    }
}

/// The item table after `clearAll`.
pub open spec fn clear_items(
    items: Seq<TodoListItemRow>,
    todo_list_id: u32,
    now: u32,
) -> Seq<TodoListItemRow> {
    Seq::new(items.len(), |j: int| clear_one(items[j], todo_list_id, now))
}

/// The replacement title an id picks up from a bulk keyed update: the
/// first pair carrying that id, as the inline value table is probed in
/// order.
pub open spec fn pair_lookup(pairs: Seq<(u32, String)>, id: u32) -> Option<String>
    decreases pairs.len(),
{
    if pairs.len() == 0 {
        None
    } else if pairs[0].0 == id {
        Some(pairs[0].1)
    } else {
        pair_lookup(pairs.drop_first(), id)
    }
}

/// Whether a bulk keyed update rewrites an item: it is a non-deleted item
/// of the targeted list and some pair carries its id.
pub open spec fn edit_match(it: TodoListItemRow, todo_list_id: u32, pairs: Seq<(u32, String)>) -> bool {
    it.todo_list_id == todo_list_id && item_live(it) && pair_lookup(pairs, it.id) is Some
}

/// One item after `editMany`.
pub open spec fn edit_one(
    it: TodoListItemRow,
    todo_list_id: u32,
    pairs: Seq<(u32, String)>,
) -> TodoListItemRow {
    if it.todo_list_id == todo_list_id && item_live(it) {
        match pair_lookup(pairs, it.id) {
            Some(t) => TodoListItemRow { title: t, ..it },
            None => it,
        }
    } else {
        it
    }
}

/// The item table after `editMany`.
pub open spec fn edit_items(
    items: Seq<TodoListItemRow>,
    todo_list_id: u32,
    pairs: Seq<(u32, String)>,
) -> Seq<TodoListItemRow> {
    Seq::new(items.len(), |j: int| edit_one(items[j], todo_list_id, pairs))
}

/// The rows a bulk keyed update hands back: the rewritten rows, in table
/// order.
pub open spec fn edited_rows(
    items: Seq<TodoListItemRow>,
    todo_list_id: u32,
    pairs: Seq<(u32, String)>,
) -> Seq<TodoListItemRow>
    decreases items.len(),
{
    if items.len() == 0 {
        Seq::empty()
    } else {
        let rest = edited_rows(items.drop_last(), todo_list_id, pairs);
        if edit_match(items.last(), todo_list_id, pairs) {
            rest.push(edit_one(items.last(), todo_list_id, pairs))
        } else {
            rest
        }
    }
}

/// An empty pair collection rewrites nothing and returns nothing.
pub proof fn lemma_edit_no_pairs(items: Seq<TodoListItemRow>, todo_list_id: u32, pairs: Seq<(u32, String)>)
    requires
        pairs.len() == 0,
    ensures
        edited_rows(items, todo_list_id, pairs).len() == 0,
        edit_items(items, todo_list_id, pairs) == items,
    decreases items.len(),
{
    assert(edit_items(items, todo_list_id, pairs) =~= items);
    if items.len() > 0 {
        lemma_edit_no_pairs(items.drop_last(), todo_list_id, pairs);
    }
}

/// The rows a bulk insert of `titles` appends: fresh consecutive ids from
/// `start_id` on, both timestamps at `now`, neither done nor deleted.
pub open spec fn new_items(
    titles: Seq<String>,
    todo_list_id: u32,
    start_id: u32,
    now: u32,
) -> Seq<TodoListItemRow> {
    Seq::new(
        titles.len(),
        |k: int| TodoListItemRow {
            id: (start_id + k) as u32,
            todo_list_id: todo_list_id,
            title: titles[k],
            done_at: None,
            deleted_at: None,
            created_at: now,
            updated_at: now,
        },
    )
}

impl Store {
    /// Some list row carries this id.
    pub open spec fn has_list(self, id: u32) -> bool {
        exists|j: int| 0 <= j < self.lists@.len() && self.lists@[j].id == id
    }

    /// Well-formedness of the store state: ids are positive, fresh ids are
    /// really fresh, ids are unique, titles are unique among non-deleted
    /// lists, and every item belongs to an existing list.
    pub open spec fn wf(self) -> bool {
        &&& self.next_list_id >= 1
        &&& self.next_item_id >= 1
        &&& forall|i: int|
            0 <= i < self.lists@.len() ==> 1 <= #[trigger] self.lists@[i].id < self.next_list_id
        &&& forall|i: int, j: int|
            0 <= i < j < self.lists@.len() ==> #[trigger] self.lists@[i].id != #[trigger] self.lists@[j].id
        &&& forall|i: int, j: int|
            0 <= i < j < self.lists@.len() && list_live(#[trigger] self.lists@[i]) && list_live(
                #[trigger] self.lists@[j],
            ) ==> self.lists@[i].title@ != self.lists@[j].title@
        &&& forall|i: int|
            0 <= i < self.items@.len() ==> 1 <= #[trigger] self.items@[i].id < self.next_item_id
        &&& forall|i: int, j: int|
            0 <= i < j < self.items@.len() ==> #[trigger] self.items@[i].id != #[trigger] self.items@[j].id
        &&& forall|i: int|
            0 <= i < self.items@.len() ==> self.has_list(#[trigger] self.items@[i].todo_list_id)
    }

    /// Rewriting items in place preserves well-formedness as long as ids
    /// and list ownership are untouched.
    pub proof fn lemma_wf_items_rewrite(pre: Store, post: Store)
        requires
            pre.wf(),
            post.lists == pre.lists,
            post.next_list_id == pre.next_list_id,
            post.next_item_id == pre.next_item_id,
            post.items@.len() == pre.items@.len(),
            forall|i: int|
                0 <= i < pre.items@.len() ==> #[trigger] post.items@[i].id == pre.items@[i].id
                    && post.items@[i].todo_list_id == pre.items@[i].todo_list_id,
        ensures
            post.wf(),
    {
        assert forall|i: int|
            0 <= i < post.items@.len() implies post.has_list(
            #[trigger] post.items@[i].todo_list_id,
        ) by {
            let id = post.items@[i].todo_list_id;
            assert(post.items@[i].id == pre.items@[i].id);
            assert(id == pre.items@[i].todo_list_id);
            assert(pre.has_list(id));
            let j = choose|j: int| 0 <= j < pre.lists@.len() && pre.lists@[j].id == id;
            assert(post.lists@[j].id == id);
        }
    }

    /// An empty store, as a fresh backing database presents itself.
    pub fn new() -> (r: Store)
        ensures
            r.wf(),
            r.lists@.len() == 0,
            r.items@.len() == 0,
            r.next_list_id == 1,
            r.next_item_id == 1,
    {
        Store { lists: Vec::new(), items: Vec::new(), next_list_id: 1, next_item_id: 1 }
    }
}

} // verus!
