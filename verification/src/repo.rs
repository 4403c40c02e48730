//! Read operations of the entity repository: table scans with the
//! soft-delete visibility rules.

use vstd::prelude::*;
use crate::store::{Store, TodoListRow, TodoListItemRow, RepoError, list_live, visible_lists, visible_items,
    find_list, lemma_find_list_characterizes, mark_done_one, mark_done_items, remove_one,
    remove_items, clear_one, clear_items, pair_lookup, edit_one, edit_items,
    edited_rows, new_items, lemma_edit_no_pairs};
use crate::util::{str_eq, contains_u32};

verus! {

/// The first replacement title carried for an id, scanning the pairs in
/// order.
fn pair_find(pairs: &[(u32, String)], id: u32) -> (r: Option<String>)
    ensures
        r == pair_lookup(pairs@, id),
{
    let mut i: usize = 0;
    proof {
        assert(pairs@.skip(0) =~= pairs@);
    }
    while i < pairs.len()
        invariant
            i <= pairs@.len(),
            pair_lookup(pairs@, id) == pair_lookup(pairs@.skip(i as int), id),
        decreases pairs@.len() - i,
    {
        proof {
            assert(pairs@.skip(i as int).drop_first() =~= pairs@.skip(i + 1));
            assert(pairs@.skip(i as int)[0] == pairs@[i as int]);
        }
        if pairs[i].0 == id {
            return Some(pairs[i].1.clone());
        }
        i = i + 1;
    }
    None
}

impl Store {
    /// All lists; soft-deleted ones only when `with_deleted` is set.
    pub fn get_todo_lists(&self, with_deleted: bool) -> (r: Vec<TodoListRow>)
        ensures
            r@ == visible_lists(self.lists@, with_deleted),
    {
        let mut out: Vec<TodoListRow> = Vec::new();
        let mut i: usize = 0;
        while i < self.lists.len()
            invariant
                i <= self.lists@.len(),
                out@ == visible_lists(self.lists@.take(i as int), with_deleted),
            decreases self.lists@.len() - i,
        {
            proof {
                assert(self.lists@.take(i + 1).drop_last() =~= self.lists@.take(i as int));
                assert(self.lists@.take(i + 1).last() == self.lists@[i as int]);
            }
            if with_deleted || self.lists[i].deleted_at().is_none() {
                out.push(self.lists[i].clone());
            }
            i = i + 1;
        }
        proof {
            assert(self.lists@.take(self.lists@.len() as int) =~= self.lists@);
        }
        out
    }

    /// The non-deleted list with the given title, if one exists.
    pub fn get_todo_list_by_title(&self, todo_title: &str) -> (r: Option<TodoListRow>)
        ensures
            r == find_list(self.lists@, todo_title@),
    {
        let mut i: usize = 0;
        proof {
            assert(self.lists@.skip(0) =~= self.lists@);
        }
        while i < self.lists.len()
            invariant
                i <= self.lists@.len(),
                find_list(self.lists@, todo_title@) == find_list(
                    self.lists@.skip(i as int),
                    todo_title@,
                ),
            decreases self.lists@.len() - i,
        {
            let l = &self.lists[i];
            proof {
                assert(self.lists@.skip(i as int).drop_first() =~= self.lists@.skip(i + 1));
                assert(self.lists@.skip(i as int)[0] == self.lists@[i as int]);
            }
            if l.deleted_at().is_none() && str_eq(l.title(), todo_title) {
                return Some(l.clone());
            }
            i = i + 1;
        }
        proof {
            assert(self.lists@.skip(self.lists@.len() as int).len() == 0);
        }
        None
    }

    /// The items of one list; soft-deleted ones only when `with_deleted`
    /// is set.
    pub fn get_todo_list_items(&self, todo_id: u32, with_deleted: bool) -> (r: Vec<
        TodoListItemRow,
    >)
        ensures
            r@ == visible_items(self.items@, todo_id, with_deleted),
    {
        let mut out: Vec<TodoListItemRow> = Vec::new();
        let mut i: usize = 0;
        while i < self.items.len()
            invariant
                i <= self.items@.len(),
                out@ == visible_items(self.items@.take(i as int), todo_id, with_deleted),
            decreases self.items@.len() - i,
        {
            proof {
                assert(self.items@.take(i + 1).drop_last() =~= self.items@.take(i as int));
                assert(self.items@.take(i + 1).last() == self.items@[i as int]);
            }
            let it = &self.items[i];
            if it.todo_list_id() == todo_id && (with_deleted || it.deleted_at().is_none()) {
                out.push(it.clone());
            }
            i = i + 1;
        }
        proof {
            assert(self.items@.take(self.items@.len() as int) =~= self.items@);
        }
        out
    }

    /// Creates a new list titled `title`, stamped at `now`. Fails with
    /// `DuplicateTitle`, leaving the store untouched, exactly when a
    /// non-deleted list of that title already exists.
    pub fn create_todo_list(&mut self, title: &str, now: u32) -> (r: Result<
        TodoListRow,
        RepoError,
    >)
        requires
            old(self).wf(),
            old(self).next_list_id < u32::MAX,
        ensures
            final(self).wf(),
            final(self).items == old(self).items,
            match r {
                Ok(row) => {
                    &&& find_list(old(self).lists@, title@) is None
                    &&& row.id == old(self).next_list_id
                    &&& row.title@ == title@
                    &&& row.deleted_at is None
                    &&& row.created_at == now
                    &&& row.updated_at == now
                    &&& final(self).lists@ == old(self).lists@.push(row)
                    &&& final(self).next_list_id == old(self).next_list_id + 1
                    &&& final(self).next_item_id == old(self).next_item_id
                },
                Err(e) => {
                    &&& e == RepoError::DuplicateTitle
                    &&& find_list(old(self).lists@, title@) is Some
                    &&& *final(self) == *old(self)
                },
            },
    {
        let existing = self.get_todo_list_by_title(title);
        proof {
            lemma_find_list_characterizes(self.lists@, title@);
        }
        if existing.is_some() {
            return Err(RepoError::DuplicateTitle);
        }
        let row = TodoListRow {
            id: self.next_list_id,
            title: title.to_owned(),
            deleted_at: None,
            created_at: now,
            updated_at: now,
        };
        let returned = row.clone();
        self.lists.push(row);
        self.next_list_id = self.next_list_id + 1;
        proof {
            let lists = self.lists@;
            let n = lists.len() - 1;
            assert(lists.drop_last() =~= old(self).lists@);
            assert forall|i: int|
                0 <= i < lists.len() implies 1 <= #[trigger] lists[i].id < self.next_list_id by {
                if i < n {
                    assert(lists[i] == old(self).lists@[i]);
                }
            }
            assert forall|i: int, j: int|
                0 <= i < j < lists.len() implies #[trigger] lists[i].id != #[trigger] lists[j].id by {
                if j < n {
                    assert(lists[i] == old(self).lists@[i]);
                    assert(lists[j] == old(self).lists@[j]);
                } else {
                    assert(lists[i] == old(self).lists@[i]);
                    assert(lists[i].id < old(self).next_list_id);
                }
            }
            assert forall|i: int, j: int|
                0 <= i < j < lists.len() && list_live(#[trigger] lists[i]) && list_live(
                    #[trigger] lists[j],
                ) implies lists[i].title@ != lists[j].title@ by {
                if j == n {
                    assert(!(list_live(old(self).lists@[i]) && old(self).lists@[i].title@
                        == title@));
                }
            }
            assert forall|i: int|
                0 <= i < self.items@.len() implies self.has_list(
                #[trigger] self.items@[i].todo_list_id,
            ) by {
                assert(old(self).has_list(old(self).items@[i].todo_list_id));
                let j = choose|j: int|
                    0 <= j < old(self).lists@.len() && old(self).lists@[j].id == old(
                        self,
                    ).items@[i].todo_list_id;
                assert(self.lists@[j].id == self.items@[i].todo_list_id);
            }
        }
        Ok(returned)
    }

    /// Inserts one row per title into the targeted list, assigning
    /// consecutive fresh ids, and returns the inserted rows. An empty
    /// title collection inserts nothing and returns an empty result.
    pub fn add_todo_list_items_returning(
        &mut self,
        todo_list_id: u32,
        items: &[String],
        now: u32,
    ) -> (r: Vec<TodoListItemRow>)
        requires
            old(self).wf(),
            old(self).has_list(todo_list_id),
            old(self).next_item_id + items@.len() <= u32::MAX,
        ensures
            final(self).wf(),
            final(self).lists == old(self).lists,
            final(self).next_list_id == old(self).next_list_id,
            r@ == new_items(items@, todo_list_id, old(self).next_item_id, now),
            final(self).items@ == old(self).items@ + r@,
            final(self).next_item_id == old(self).next_item_id + items@.len(),
            items@.len() == 0 ==> *final(self) == *old(self),
    {
        let ghost added = new_items(items@, todo_list_id, self.next_item_id, now);
        if items.is_empty() {
            proof {
                assert(self.items@ + added =~= self.items@);
                assert(Seq::<TodoListItemRow>::empty() =~= added);
            }
            return Vec::new();
        }
        let start = self.next_item_id;
        let mut out: Vec<TodoListItemRow> = Vec::new();
        let mut k: usize = 0;
        while k < items.len()
            invariant
                k <= items@.len(),
                start == old(self).next_item_id,
                start + items@.len() <= u32::MAX,
                self == old(self),
                out@.len() == k,
                forall|j: int| 0 <= j < k ==> out@[j] == new_items(
                    items@,
                    todo_list_id,
                    start,
                    now,
                )[j],
            decreases items@.len() - k,
        {
            let row = TodoListItemRow {
                id: start + (k as u32),
                todo_list_id: todo_list_id,
                title: items[k].clone(),
                done_at: None,
                deleted_at: None,
                created_at: now,
                updated_at: now,
            };
            out.push(row);
            k = k + 1;
        }
        proof {
            assert(out@ =~= added);
        }
        let mut j: usize = 0;
        while j < out.len()
            invariant
                j <= out@.len(),
                out@ =~= added,
                self.lists == old(self).lists,
                self.next_list_id == old(self).next_list_id,
                self.next_item_id == old(self).next_item_id,
                self.items@ == old(self).items@ + out@.take(j as int),
            decreases out@.len() - j,
        {
            self.items.push(out[j].clone());
            proof {
                assert(old(self).items@ + out@.take(j as int + 1) =~= (old(self).items@
                    + out@.take(j as int)).push(out@[j as int]));
            }
            j = j + 1;
        }
        proof {
            assert(out@.take(out@.len() as int) =~= out@);
        }
        self.next_item_id = start + (items.len() as u32);
        proof {
            let n_old = old(self).items@.len() as int;
            let items_all = self.items@;
            assert forall|i: int|
                0 <= i < items_all.len() implies 1 <= #[trigger] items_all[i].id
                < self.next_item_id by {
                if i < n_old {
                } else {
                    assert(items_all[i] == added[i - n_old]);
                }
            }
            assert forall|i: int, j2: int|
                0 <= i < j2 < items_all.len() implies #[trigger] items_all[i].id
                != #[trigger] items_all[j2].id by {
                if i >= n_old {
                    assert(items_all[i] == added[i - n_old]);
                }
                if j2 >= n_old {
                    assert(items_all[j2] == added[j2 - n_old]);
                }
            }
            assert forall|i: int|
                0 <= i < items_all.len() implies self.has_list(
                #[trigger] items_all[i].todo_list_id,
            ) by {
                if i < n_old {
                    assert(old(self).has_list(old(self).items@[i].todo_list_id));
                } else {
                    assert(items_all[i] == added[i - n_old]);
                    assert(old(self).has_list(todo_list_id));
                }
            }
        }
        out
    }

    /// Stamps the completion timestamp `now` on exactly the non-deleted
    /// items of the targeted list whose id is in `ids`; all other rows
    /// are untouched. An empty id set leaves the store untouched.
    pub fn set_todo_list_items_done(&mut self, todo_list_id: u32, ids: &[u32], now: u32)
        requires
            old(self).wf(),
        ensures
            final(self).wf(),
            final(self).lists == old(self).lists,
            final(self).next_list_id == old(self).next_list_id,
            final(self).next_item_id == old(self).next_item_id,
            final(self).items@ == mark_done_items(old(self).items@, todo_list_id, ids@, now),
            ids@.len() == 0 ==> *final(self) == *old(self),
    {
        if ids.is_empty() {
            proof {
                assert(mark_done_items(self.items@, todo_list_id, ids@, now) =~= self.items@);
            }
            return ;
        }
        let mut rebuilt: Vec<TodoListItemRow> = Vec::new();
        let mut i: usize = 0;
        while i < self.items.len()
            invariant
                i <= self.items@.len(),
                *self == *old(self),
                rebuilt@.len() == i,
                forall|j: int| 0 <= j < i ==> rebuilt@[j] == mark_done_one(
                    old(self).items@[j],
                    todo_list_id,
                    ids@,
                    now,
                ),
            decreases self.items@.len() - i,
        {
            let it = &self.items[i];
            if it.todo_list_id() == todo_list_id && it.deleted_at().is_none() && contains_u32(
                ids,
                it.id(),
            ) {
                let mut c = it.clone();
                c.done_at = Some(now);
                rebuilt.push(c);
            } else {
                rebuilt.push(it.clone());
            }
            i = i + 1;
        }
        self.items = rebuilt;
        proof {
            assert(self.items@ =~= mark_done_items(old(self).items@, todo_list_id, ids@, now));
            Store::lemma_wf_items_rewrite(*old(self), *self);
        }
    }

    /// Soft-deletes, at `now`, exactly the non-deleted items of the
    /// targeted list whose id is in `ids`. An empty id set leaves the
    /// store untouched.
    pub fn remove_todo_list_items(&mut self, todo_list_id: u32, ids: &[u32], now: u32)
        requires
            old(self).wf(),
        ensures
            final(self).wf(),
            final(self).lists == old(self).lists,
            final(self).next_list_id == old(self).next_list_id,
            final(self).next_item_id == old(self).next_item_id,
            final(self).items@ == remove_items(old(self).items@, todo_list_id, ids@, now),
            ids@.len() == 0 ==> *final(self) == *old(self),
    {
        if ids.is_empty() {
            proof {
                assert(remove_items(self.items@, todo_list_id, ids@, now) =~= self.items@);
            }
            return ;
        }
        let mut rebuilt: Vec<TodoListItemRow> = Vec::new();
        let mut i: usize = 0;
        while i < self.items.len()
            invariant
                i <= self.items@.len(),
                *self == *old(self),
                rebuilt@.len() == i,
                forall|j: int| 0 <= j < i ==> rebuilt@[j] == remove_one(
                    old(self).items@[j],
                    todo_list_id,
                    ids@,
                    now,
                ),
            decreases self.items@.len() - i,
        {
            let it = &self.items[i];
            if it.todo_list_id() == todo_list_id && it.deleted_at().is_none() && contains_u32(
                ids,
                it.id(),
            ) {
                let mut c = it.clone();
                c.deleted_at = Some(now);
                rebuilt.push(c);
            } else {
                rebuilt.push(it.clone());
            }
            i = i + 1;
        }
        self.items = rebuilt;
        proof {
            assert(self.items@ =~= remove_items(old(self).items@, todo_list_id, ids@, now));
            Store::lemma_wf_items_rewrite(*old(self), *self);
        }
    }

    /// Soft-deletes, at `now`, every non-deleted item of the targeted
    /// list.
    pub fn clear_todo_list_items(&mut self, todo_list_id: u32, now: u32)
        requires
            old(self).wf(),
        ensures
            final(self).wf(),
            final(self).lists == old(self).lists,
            final(self).next_list_id == old(self).next_list_id,
            final(self).next_item_id == old(self).next_item_id,
            final(self).items@ == clear_items(old(self).items@, todo_list_id, now),
    {
        let mut rebuilt: Vec<TodoListItemRow> = Vec::new();
        let mut i: usize = 0;
        while i < self.items.len()
            invariant
                i <= self.items@.len(),
                *self == *old(self),
                rebuilt@.len() == i,
                forall|j: int| 0 <= j < i ==> rebuilt@[j] == clear_one(
                    old(self).items@[j],
                    todo_list_id,
                    now,
                ),
            decreases self.items@.len() - i,
        {
            let it = &self.items[i];
            if it.todo_list_id() == todo_list_id && it.deleted_at().is_none() {
                let mut c = it.clone();
                c.deleted_at = Some(now);
                rebuilt.push(c);
            } else {
                rebuilt.push(it.clone());
            }
            i = i + 1;
        }
        self.items = rebuilt;
        proof {
            assert(self.items@ =~= clear_items(old(self).items@, todo_list_id, now));
            Store::lemma_wf_items_rewrite(*old(self), *self);
        }
    }

    /// Applies a bulk keyed title update to the non-deleted items of the
    /// targeted list and returns exactly the rewritten rows, in table
    /// order. Ids matching no row are silently ignored; an empty pair
    /// collection leaves the store untouched and returns nothing.
    pub fn edit_todo_list_items(
        &mut self,
        todo_list_id: u32,
        id_and_item_pairs: &[(u32, String)],
    ) -> (r: Vec<TodoListItemRow>)
        requires
            old(self).wf(),
        ensures
            final(self).wf(),
            final(self).lists == old(self).lists,
            final(self).next_list_id == old(self).next_list_id,
            final(self).next_item_id == old(self).next_item_id,
            final(self).items@ == edit_items(old(self).items@, todo_list_id, id_and_item_pairs@),
            r@ == edited_rows(old(self).items@, todo_list_id, id_and_item_pairs@),
            id_and_item_pairs@.len() == 0 ==> *final(self) == *old(self) && r@.len() == 0,
    {
        if id_and_item_pairs.is_empty() {
            proof {
                lemma_edit_no_pairs(self.items@, todo_list_id, id_and_item_pairs@);
            }
            return Vec::new();
        }
        let mut rebuilt: Vec<TodoListItemRow> = Vec::new();
        let mut out: Vec<TodoListItemRow> = Vec::new();
        let mut i: usize = 0;
        while i < self.items.len()
            invariant
                i <= self.items@.len(),
                *self == *old(self),
                rebuilt@.len() == i,
                forall|j: int| 0 <= j < i ==> rebuilt@[j] == edit_one(
                    old(self).items@[j],
                    todo_list_id,
                    id_and_item_pairs@,
                ),
                out@ == edited_rows(self.items@.take(i as int), todo_list_id, id_and_item_pairs@),
            decreases self.items@.len() - i,
        {
            proof {
                assert(self.items@.take(i + 1).drop_last() =~= self.items@.take(i as int));
                assert(self.items@.take(i + 1).last() == self.items@[i as int]);
            }
            let it = &self.items[i];
            if it.todo_list_id() == todo_list_id && it.deleted_at().is_none() {
                match pair_find(id_and_item_pairs, it.id()) {
                    Some(t) => {
                        let mut c = it.clone();
                        c.title = t;
                        let edited = c.clone();
                        rebuilt.push(c);
                        out.push(edited);
                    },
                    None => {
                        rebuilt.push(it.clone());
                    },
                }
            } else {
                rebuilt.push(it.clone());
            }
            i = i + 1;
        }
        self.items = rebuilt;
        proof {
            assert(old(self).items@.take(old(self).items@.len() as int) =~= old(self).items@);
            assert(self.items@ =~= edit_items(old(self).items@, todo_list_id, id_and_item_pairs@));
            Store::lemma_wf_items_rewrite(*old(self), *self);
        }
        out
    }

    /// Inserts one row per title into the targeted list, discarding the
    /// inserted rows.
    pub fn add_todo_list_items(&mut self, todo_list_id: u32, items: &[String], now: u32)
        requires
            old(self).wf(),
            old(self).has_list(todo_list_id),
            old(self).next_item_id + items@.len() <= u32::MAX,
        ensures
            final(self).wf(),
            final(self).lists == old(self).lists,
            final(self).next_list_id == old(self).next_list_id,
            final(self).items@ == old(self).items@ + new_items(
                items@,
                todo_list_id,
                old(self).next_item_id,
                now,
            ),
            final(self).next_item_id == old(self).next_item_id + items@.len(),
            items@.len() == 0 ==> *final(self) == *old(self),
    {
        let _ = self.add_todo_list_items_returning(todo_list_id, items, now);
    }
}

} // verus!
