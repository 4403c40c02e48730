use todo_tools::Store;
use todo_tools::store::RepoError;

fn seeded() -> Store {
    let mut store = Store::new();
    store.create_todo_list("groceries", 10).expect("fresh title");
    let items = vec!["milk".to_string(), "eggs".to_string(), "jam".to_string()];
    store.add_todo_list_items_returning(1, &items, 11);
    store
}

#[test]
fn create_then_find_by_title_round_trip() {
    let mut store = Store::new();
    let created = store.create_todo_list("groceries", 42).expect("fresh title");
    let found = store.get_todo_list_by_title("groceries").expect("created list is found");
    assert_eq!(found.id(), created.id());
    assert_eq!(found.title(), created.title());
    assert_eq!(found.title(), "groceries");
    assert_eq!(found.created_at(), 42);
}

#[test]
fn duplicate_titles_are_rejected() {
    let mut store = Store::new();
    store.create_todo_list("groceries", 1).expect("fresh title");
    match store.create_todo_list("groceries", 2) {
        Err(e) => assert_eq!(e, RepoError::DuplicateTitle),
        Ok(_) => panic!("duplicate title must be rejected"),
    }
    assert!(store.create_todo_list("chores", 3).is_ok());
}

#[test]
fn mark_done_stamps_exactly_the_matching_rows() {
    let mut store = seeded();
    store.set_todo_list_items_done(1, &[1, 3, 99], 50);
    let rows = store.get_todo_list_items(1, false);
    assert_eq!(rows.len(), 3);
    assert_eq!(rows[0].done_at(), Some(50));
    assert_eq!(rows[1].done_at(), None);
    assert_eq!(rows[2].done_at(), Some(50));
}

#[test]
fn mark_done_skips_other_lists_and_deleted_rows() {
    let mut store = seeded();
    store.create_todo_list("chores", 12).expect("fresh title");
    let chores = vec!["sweep".to_string()];
    store.add_todo_list_items_returning(2, &chores, 13);
    store.remove_todo_list_items(1, &[2], 14);
    store.set_todo_list_items_done(1, &[1, 2, 4], 50);
    let groceries = store.get_todo_list_items(1, true);
    assert_eq!(groceries[0].done_at(), Some(50));
    assert_eq!(groceries[1].done_at(), None, "a deleted row is not stamped");
    assert_eq!(groceries[2].done_at(), None);
    let chores_rows = store.get_todo_list_items(2, false);
    assert_eq!(chores_rows[0].done_at(), None, "id 4 belongs to no groceries row");
}

#[test]
fn mark_done_twice_keeps_the_visible_state() {
    let mut first = seeded();
    first.set_todo_list_items_done(1, &[1, 2], 50);
    let once: Vec<_> = first.get_todo_list_items(1, false);
    let mut second = seeded();
    second.set_todo_list_items_done(1, &[1, 2], 50);
    second.set_todo_list_items_done(1, &[1, 2], 60);
    let twice: Vec<_> = second.get_todo_list_items(1, false);
    assert_eq!(once.len(), twice.len());
    for (a, b) in once.iter().zip(twice.iter()) {
        assert_eq!(a.id(), b.id());
        assert_eq!(a.title(), b.title());
        assert_eq!(a.is_done(), b.is_done());
        assert_eq!(a.is_deleted(), b.is_deleted());
    }
    assert_eq!(twice[0].done_at(), Some(60), "the timestamp may refresh");
}

#[test]
fn removed_ids_leave_the_default_listing_only() {
    let mut store = seeded();
    store.remove_todo_list_items(1, &[1, 3], 50);
    let visible = store.get_todo_list_items(1, false);
    assert_eq!(visible.len(), 1);
    assert_eq!(visible[0].id(), 2);
    let all = store.get_todo_list_items(1, true);
    assert_eq!(all.len(), 3);
    assert!(all.iter().any(|r| r.id() == 1 && r.is_deleted()));
    assert!(all.iter().any(|r| r.id() == 3 && r.is_deleted()));
}

#[test]
fn empty_bulk_operations_change_nothing() {
    let mut store = seeded();
    let before: Vec<_> = store
        .get_todo_list_items(1, true)
        .iter()
        .map(|r| (r.id(), r.title().to_string(), r.done_at(), r.deleted_at()))
        .collect();
    let no_ids: Vec<u32> = Vec::new();
    let no_titles: Vec<String> = Vec::new();
    let no_pairs: Vec<(u32, String)> = Vec::new();
    store.set_todo_list_items_done(1, &no_ids, 50);
    store.remove_todo_list_items(1, &no_ids, 51);
    let added = store.add_todo_list_items_returning(1, &no_titles, 52);
    assert_eq!(added.len(), 0);
    let edited = store.edit_todo_list_items(1, &no_pairs);
    assert_eq!(edited.len(), 0);
    let after: Vec<_> = store
        .get_todo_list_items(1, true)
        .iter()
        .map(|r| (r.id(), r.title().to_string(), r.done_at(), r.deleted_at()))
        .collect();
    assert_eq!(before, after);
}

#[test]
fn edit_rewrites_titles_and_returns_only_changed_rows() {
    let mut store = seeded();
    let pairs = vec![(1, "bread".to_string()), (99, "ghost".to_string())];
    let edited = store.edit_todo_list_items(1, &pairs);
    assert_eq!(edited.len(), 1);
    assert_eq!(edited[0].id(), 1);
    assert_eq!(edited[0].title(), "bread");
    let rows = store.get_todo_list_items(1, false);
    assert_eq!(rows[0].title(), "bread");
    assert_eq!(rows[1].title(), "eggs");
    assert_eq!(rows[2].title(), "jam");
}

#[test]
fn edit_with_repeated_ids_applies_the_first_pair() {
    let mut store = seeded();
    let pairs = vec![(1, "first".to_string()), (1, "second".to_string())];
    let edited = store.edit_todo_list_items(1, &pairs);
    assert_eq!(edited.len(), 1);
    assert_eq!(edited[0].title(), "first");
    let rows = store.get_todo_list_items(1, false);
    assert_eq!(rows[0].title(), "first");
}

#[test]
fn clear_soft_deletes_every_live_item_of_the_list() {
    let mut store = seeded();
    store.create_todo_list("chores", 12).expect("fresh title");
    let chores = vec!["sweep".to_string()];
    store.add_todo_list_items_returning(2, &chores, 13);
    store.clear_todo_list_items(1, 60);
    assert_eq!(store.get_todo_list_items(1, false).len(), 0);
    assert_eq!(store.get_todo_list_items(1, true).len(), 3);
    assert_eq!(store.get_todo_list_items(2, false).len(), 1);
}

#[test]
fn deleted_lists_show_only_when_asked() {
    let mut store = Store::new();
    store.create_todo_list("groceries", 1).expect("fresh title");
    let visible = store.get_todo_lists(false);
    assert_eq!(visible.len(), 1);
    assert_eq!(store.get_todo_lists(true).len(), 1);
    assert_eq!(visible[0].deleted_at(), None);
    assert_eq!(visible[0].updated_at(), 1);
}
