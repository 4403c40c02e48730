//! The command dispatcher: a stateless mapping from one parsed verb to
//! exactly one repository call sequence, with all argument validation
//! done before the store is touched.

use vstd::prelude::*;
use crate::store::{Store, TodoListRow, TodoListItemRow, find_list, lemma_find_list_characterizes,
    visible_lists, visible_items, mark_done_items, remove_items, clear_items, edit_items,
    edited_rows, new_items};
use crate::util::{parse_u32, parses_to_u32, u32_numeral_value};

verus! {

/// Arguments of the `Add` verb: the owning list's title and the titles
/// of the items to insert.
pub struct AddArgs {
    pub todo_list_title: String,
    pub items: Vec<String>,
}

/// Arguments of the `CreateTodoList` verb.
pub struct CreateTodoListArgs {
    pub title: String,
}

/// Arguments of the `Clear` verb.
pub struct ClearArgs {
    pub todo_list_title: String,
}

/// Arguments of the `Done` verb: the owning list's title and the ids to
/// mark complete.
pub struct DoneArgs {
    pub todo_list_title: String,
    pub ids: Vec<u32>,
}

/// Arguments of the `Edit` verb: the owning list's title and an
/// interleaved (id, title) argument sequence.
pub struct EditArgs {
    pub todo_list_title: String,
    pub items: Vec<String>,
}

/// Arguments of the `List` verb.
pub struct ListArgs {
    pub todo_list_title: String,
}

/// Arguments of the `Remove` verb: the owning list's title and the ids
/// to soft-delete.
pub struct RemoveArgs {
    pub todo_list_title: String,
    pub ids: Vec<u32>,
}

/// Arguments of the `ShowLists` verb.
pub struct ShowListsArgs {
    pub with_deleted: bool,
}

/// The finite set of verbs the dispatcher understands.
pub enum SubCommand {
    Add(AddArgs),
    CreateTodoList(CreateTodoListArgs),
    Clear(ClearArgs),
    Done(DoneArgs),
    Edit(EditArgs),
    List(ListArgs),
    Remove(RemoveArgs),
    ShowLists(ShowListsArgs),
}

/// A validation failure: either malformed arguments or a domain rule
/// violation. Store faults are not represented here; they belong to the
/// unverified shell around the library.
#[derive(Debug)]
pub enum CliError {
    ArgsError(&'static str),
    LogicError(&'static str),
}

/// The typed outcome of one dispatched verb.
pub enum CliOutput<'a> {
    TodoItemsOutput(Vec<TodoListItemRow>),
    TodoListsOutput(Vec<TodoListRow>),
    TodoListCreatedOutput(&'a str),
    TodoListClearedOutput(&'a str),
}

/// One parsed command line.
pub struct TodoCli {
    pub subcommand: SubCommand,
}

/// Whether an interleaved `Edit` argument sequence is well-formed: a
/// non-empty, even number of arguments whose id positions all parse as
/// `u32`.
pub open spec fn edit_args_ok(items: Seq<String>) -> bool {
    &&& items.len() > 0
    &&& items.len() % 2 == 0
    &&& forall|k: int| 0 <= k < items.len() / 2 ==> parses_to_u32(#[trigger] items[2 * k]@)
}

/// The (id, title) pairs an interleaved `Edit` argument sequence
/// denotes.
pub open spec fn edit_pairs(items: Seq<String>) -> Seq<(u32, String)> {
    Seq::new(
        (items.len() / 2) as nat,
        |k: int| (u32_numeral_value(items[2 * k]@) as u32, items[2 * k + 1]),
    )
}

impl TodoCli {
    /// Resolves a list title, exactly as every item verb does first.
    fn try_get_todo_list_by_title(store: &Store, todo_list_title: &str) -> (r: Result<
        TodoListRow,
        CliError,
    >)
        ensures
            match r {
                Ok(l) => find_list(store.lists@, todo_list_title@) == Some(l),
                Err(e) => find_list(store.lists@, todo_list_title@) is None && (
                e matches CliError::ArgsError(m) && m@
                    == "Could not find todo list with the given name"@),
            },
    {
        let todo_list = store.get_todo_list_by_title(todo_list_title);
        match todo_list {
            Some(todo_list) => Ok(todo_list),
            None => Err(CliError::ArgsError("Could not find todo list with the given name")),
        }
    }

    /// Runs one verb to completion against the store, at time `now`.
    ///
    /// Every verb validates its arguments before the store is touched:
    /// a failed validation leaves the store exactly as it was. The
    /// postcondition pins, for each verb, both the store transition and
    /// the returned result variant.
    #[verifier::loop_isolation(false)]
    pub fn exec<'a>(&'a self, store: &mut Store, now: u32) -> (r: Result<CliOutput<'a>, CliError>)
        requires
            old(store).wf(),
            (match self.subcommand {
                SubCommand::Add(a) => old(store).next_item_id + a.items@.len() <= u32::MAX,
                SubCommand::CreateTodoList(_) => old(store).next_list_id < u32::MAX,
                _ => true,
            }),
        ensures
            final(store).wf(),
            (match self.subcommand {
                SubCommand::Add(a) => (match find_list(old(store).lists@, a.todo_list_title@) {
                    Option::None => Self::spec_unknown_list(r, *old(store), *final(store)),
                    Option::Some(l) => {
                        if a.items@.len() == 0 {
                            &&& *final(store) == *old(store)
                            &&& (r matches Err(CliError::ArgsError(m)) && m@
                                == "No items passed to be added"@)
                        } else {
                            &&& final(store).lists == old(store).lists
                            &&& final(store).next_list_id == old(store).next_list_id
                            &&& final(store).next_item_id == old(store).next_item_id
                                + a.items@.len()
                            &&& final(store).items@ == old(store).items@ + new_items(
                                a.items@,
                                l.id,
                                old(store).next_item_id,
                                now,
                            )
                            &&& (r matches Ok(CliOutput::TodoItemsOutput(rows)) && rows@
                                == new_items(a.items@, l.id, old(store).next_item_id, now))
                        }
                    },
                }),
                SubCommand::Clear(c) => (match find_list(old(store).lists@, c.todo_list_title@) {
                    Option::None => Self::spec_unknown_list(r, *old(store), *final(store)),
                    Option::Some(l) => {
                        &&& final(store).lists == old(store).lists
                        &&& final(store).next_list_id == old(store).next_list_id
                        &&& final(store).next_item_id == old(store).next_item_id
                        &&& final(store).items@ == clear_items(old(store).items@, l.id, now)
                        &&& (r matches Ok(CliOutput::TodoListClearedOutput(t)) && t@
                            == c.todo_list_title@)
                    },
                }),
                SubCommand::CreateTodoList(c) => {
                    if c.title@.len() == 0 {
                        &&& *final(store) == *old(store)
                        &&& (r matches Err(CliError::ArgsError(m)) && m@
                            == "Todo list title cannot be ''"@)
                    } else {
                        (match find_list(old(store).lists@, c.title@) {
                            Option::Some(_) => {
                                &&& *final(store) == *old(store)
                                &&& (r matches Err(CliError::LogicError(m)) && m@
                                    == "A todo list with the same title already exists!"@)
                            },
                            Option::None => {
                                &&& final(store).items == old(store).items
                                &&& final(store).next_list_id == old(store).next_list_id + 1
                                &&& final(store).next_item_id == old(store).next_item_id
                                &&& final(store).lists@ == old(store).lists@.push(
                                    final(store).lists@.last(),
                                )
                                &&& final(store).lists@.last().id == old(store).next_list_id
                                &&& final(store).lists@.last().title@ == c.title@
                                &&& final(store).lists@.last().deleted_at is None
                                &&& final(store).lists@.last().created_at == now
                                &&& (r matches Ok(CliOutput::TodoListCreatedOutput(t)) && t@
                                    == c.title@)
                            },
                        })
                    }
                },
                SubCommand::Done(d) => (match find_list(old(store).lists@, d.todo_list_title@) {
                    Option::None => Self::spec_unknown_list(r, *old(store), *final(store)),
                    Option::Some(l) => {
                        if d.ids@.len() == 0 {
                            &&& *final(store) == *old(store)
                            &&& (r matches Err(CliError::ArgsError(m)) && m@
                                == "No ids passed to be set to done"@)
                        } else {
                            &&& final(store).lists == old(store).lists
                            &&& final(store).next_list_id == old(store).next_list_id
                            &&& final(store).next_item_id == old(store).next_item_id
                            &&& final(store).items@ == mark_done_items(
                                old(store).items@,
                                l.id,
                                d.ids@,
                                now,
                            )
                            &&& (r matches Ok(CliOutput::TodoItemsOutput(rows)) && rows@
                                == visible_items(final(store).items@, l.id, false))
                        }
                    },
                }),
                SubCommand::Edit(e) => (match find_list(old(store).lists@, e.todo_list_title@) {
                    Option::None => Self::spec_unknown_list(r, *old(store), *final(store)),
                    Option::Some(l) => {
                        if !edit_args_ok(e.items@) {
                            &&& *final(store) == *old(store)
                            &&& (r matches Err(CliError::ArgsError(m)) && m@
                                == "The input has to be pairs of ids and todo items"@)
                        } else {
                            &&& final(store).lists == old(store).lists
                            &&& final(store).next_list_id == old(store).next_list_id
                            &&& final(store).next_item_id == old(store).next_item_id
                            &&& final(store).items@ == edit_items(
                                old(store).items@,
                                l.id,
                                edit_pairs(e.items@),
                            )
                            &&& (r matches Ok(CliOutput::TodoItemsOutput(rows)) && rows@
                                == edited_rows(old(store).items@, l.id, edit_pairs(e.items@)))
                        }
                    },
                }),
                SubCommand::List(a) => (match find_list(old(store).lists@, a.todo_list_title@) {
                    Option::None => Self::spec_unknown_list(r, *old(store), *final(store)),
                    Option::Some(l) => {
                        &&& *final(store) == *old(store)
                        &&& (r matches Ok(CliOutput::TodoItemsOutput(rows)) && rows@
                            == visible_items(old(store).items@, l.id, false))
                    },
                }),
                SubCommand::Remove(d) => (match find_list(old(store).lists@, d.todo_list_title@) {
                    Option::None => Self::spec_unknown_list(r, *old(store), *final(store)),
                    Option::Some(l) => {
                        if d.ids@.len() == 0 {
                            &&& *final(store) == *old(store)
                            &&& (r matches Err(CliError::ArgsError(m)) && m@
                                == "No ids passed to remove"@)
                        } else {
                            &&& final(store).lists == old(store).lists
                            &&& final(store).next_list_id == old(store).next_list_id
                            &&& final(store).next_item_id == old(store).next_item_id
                            &&& final(store).items@ == remove_items(
                                old(store).items@,
                                l.id,
                                d.ids@,
                                now,
                            )
                            &&& (r matches Ok(CliOutput::TodoItemsOutput(rows)) && rows@
                                == visible_items(final(store).items@, l.id, false))
                        }
                    },
                }),
                SubCommand::ShowLists(s) => {
                    &&& *final(store) == *old(store)
                    &&& (r matches Ok(CliOutput::TodoListsOutput(ls)) && ls@ == visible_lists(
                        old(store).lists@,
                        s.with_deleted,
                    ))
                },
            }),
    {
        match &self.subcommand {
            SubCommand::Add(AddArgs { todo_list_title, items }) => {
                let todo_list = match Self::try_get_todo_list_by_title(
                    store,
                    todo_list_title.as_str(),
                ) {
                    Ok(l) => l,
                    Err(e) => {
                        return Err(e);
                    },
                };
                if items.len() == 0 {
                    return Err(CliError::ArgsError("No items passed to be added"));
                }
                proof {
                    lemma_find_list_characterizes(store.lists@, todo_list_title@);
                    let j = choose|j: int|
                        0 <= j < store.lists@.len() && store.lists@[j] == todo_list;
                    assert(store.lists@[j].id == todo_list.id);
                }
                let added_rows = store.add_todo_list_items_returning(
                    todo_list.id(),
                    items.as_slice(),
                    now,
                );
                Ok(CliOutput::TodoItemsOutput(added_rows))
            },
            SubCommand::Clear(ClearArgs { todo_list_title }) => {
                let todo_list = match Self::try_get_todo_list_by_title(
                    store,
                    todo_list_title.as_str(),
                ) {
                    Ok(l) => l,
                    Err(e) => {
                        return Err(e);
                    },
                };
                store.clear_todo_list_items(todo_list.id(), now);
                Ok(CliOutput::TodoListClearedOutput(todo_list_title.as_str()))
            },
            SubCommand::CreateTodoList(CreateTodoListArgs { title }) => {
                if title.as_str().is_empty() {
                    return Err(CliError::ArgsError("Todo list title cannot be ''"));
                }
                let todo_list_option = store.get_todo_list_by_title(title.as_str());
                if todo_list_option.is_some() {
                    return Err(
                        CliError::LogicError("A todo list with the same title already exists!"),
                    );
                }
                let created = store.create_todo_list(title.as_str(), now);
                match created {
                    Ok(_) => Ok(CliOutput::TodoListCreatedOutput(title.as_str())),
                    Err(_) => vstd::pervasive::unreached(),
                }
            },
            SubCommand::Done(DoneArgs { todo_list_title, ids }) => {
                let todo_list = match Self::try_get_todo_list_by_title(
                    store,
                    todo_list_title.as_str(),
                ) {
                    Ok(l) => l,
                    Err(e) => {
                        return Err(e);
                    },
                };
                if ids.len() == 0 {
                    return Err(CliError::ArgsError("No ids passed to be set to done"));
                }
                store.set_todo_list_items_done(todo_list.id(), ids.as_slice(), now);
                let rows = store.get_todo_list_items(todo_list.id(), false);
                Ok(CliOutput::TodoItemsOutput(rows))
            },
            SubCommand::Edit(EditArgs { todo_list_title, items }) => {
                let todo_list = match Self::try_get_todo_list_by_title(
                    store,
                    todo_list_title.as_str(),
                ) {
                    Ok(l) => l,
                    Err(e) => {
                        return Err(e);
                    },
                };
                if items.len() == 0 || items.len() % 2 == 1 {
                    return Err(CliError::ArgsError("The input has to be pairs of ids and todo items"));
                }
                let half_n = items.len() / 2;
                let mut id_and_item_pairs: Vec<(u32, String)> = Vec::new();
                let mut half_idx: usize = 0;
                while half_idx < half_n
                    invariant
                        half_idx <= half_n,
                        half_n == items@.len() / 2,
                        items@.len() % 2 == 0,
                        id_and_item_pairs@.len() == half_idx,
                        forall|m: int|
                            0 <= m < half_idx ==> parses_to_u32(#[trigger] items@[2 * m]@),
                        forall|m: int|
                            0 <= m < half_idx ==> #[trigger] id_and_item_pairs@[m] == (
                            u32_numeral_value(items@[2 * m]@) as u32,
                            items@[2 * m + 1],
                        ),
                    decreases half_n - half_idx,
                {
                    let idx = half_idx * 2;
                    let id: u32 = match parse_u32(items[idx].as_str()) {
                        Some(id) => id,
                        None => {
                            proof {
                                assert(!parses_to_u32(items@[2 * (half_idx as int)]@));
                            }
                            return Err(
                                CliError::ArgsError("The input has to be pairs of ids and todo items"),
                            );
                        },
                    };
                    let item = items[idx + 1].clone();
                    id_and_item_pairs.push((id, item));
                    half_idx = half_idx + 1;
                }
                proof {
                    assert(id_and_item_pairs@ =~= edit_pairs(items@));
                }
                let edited = store.edit_todo_list_items(
                    todo_list.id(),
                    id_and_item_pairs.as_slice(),
                );
                Ok(CliOutput::TodoItemsOutput(edited))
            },
            SubCommand::List(ListArgs { todo_list_title }) => {
                let todo_list = match Self::try_get_todo_list_by_title(
                    store,
                    todo_list_title.as_str(),
                ) {
                    Ok(l) => l,
                    Err(e) => {
                        return Err(e);
                    },
                };
                let rows = store.get_todo_list_items(todo_list.id(), false);
                Ok(CliOutput::TodoItemsOutput(rows))
            },
            SubCommand::Remove(RemoveArgs { todo_list_title, ids }) => {
                let todo_list = match Self::try_get_todo_list_by_title(
                    store,
                    todo_list_title.as_str(),
                ) {
                    Ok(l) => l,
                    Err(e) => {
                        return Err(e);
                    },
                };
                if ids.len() == 0 {
                    return Err(CliError::ArgsError("No ids passed to remove"));
                }
                store.remove_todo_list_items(todo_list.id(), ids.as_slice(), now);
                let rows = store.get_todo_list_items(todo_list.id(), false);
                Ok(CliOutput::TodoItemsOutput(rows))
            },
            SubCommand::ShowLists(ShowListsArgs { with_deleted }) => {
                let todo_lists = store.get_todo_lists(*with_deleted);
                Ok(CliOutput::TodoListsOutput(todo_lists))
            },
        }
    }

    /// What holds when a verb names a list no non-deleted row carries:
    /// the store is untouched and the unknown-list argument error comes
    /// back.
    pub open spec fn spec_unknown_list(
        r: Result<CliOutput<'_>, CliError>,
        pre: Store,
        post: Store,
    ) -> bool {
        &&& post == pre
        &&& (r matches Err(CliError::ArgsError(m)) && m@
            == "Could not find todo list with the given name"@)
    }
}

} // verus!
