use todo_tools::{Store, TodoCli, SubCommand, CliError, CliOutput};
use todo_tools::{AddArgs, CreateTodoListArgs, ClearArgs, DoneArgs, EditArgs, ListArgs, RemoveArgs,
    ShowListsArgs};

fn run<'a>(cli: &'a TodoCli, store: &mut Store, now: u32) -> Result<CliOutput<'a>, CliError> {
    cli.exec(store, now)
}

fn create_list(store: &mut Store, title: &str, now: u32) {
    let cli = TodoCli {
        subcommand: SubCommand::CreateTodoList(CreateTodoListArgs { title: title.to_string() }),
    };
    let out = run(&cli, store, now).expect("creation should succeed");
    match out {
        CliOutput::TodoListCreatedOutput(t) => assert_eq!(t, title),
        _ => panic!("unexpected output variant"),
    }
}

fn add_items(store: &mut Store, title: &str, items: &[&str], now: u32) {
    let cli = TodoCli {
        subcommand: SubCommand::Add(AddArgs {
            todo_list_title: title.to_string(),
            items: items.iter().map(|s| s.to_string()).collect(),
        }),
    };
    run(&cli, store, now).expect("add should succeed");
}

fn list_items(store: &mut Store, title: &str) -> Vec<(u32, String, bool)> {
    let cli = TodoCli {
        subcommand: SubCommand::List(ListArgs { todo_list_title: title.to_string() }),
    };
    let out = run(&cli, store, 999).expect("list should succeed");
    match out {
        CliOutput::TodoItemsOutput(rows) => rows
            .iter()
            .map(|r| (r.id(), r.title().to_string(), r.is_done()))
            .collect(),
        _ => panic!("unexpected output variant"),
    }
}

#[test]
fn create_add_list_scenario() {
    let mut store = Store::new();
    create_list(&mut store, "groceries", 100);
    add_items(&mut store, "groceries", &["milk", "eggs"], 101);
    let rows = list_items(&mut store, "groceries");
    assert_eq!(rows.len(), 2);
    assert_eq!(rows[0], (1, "milk".to_string(), false));
    assert_eq!(rows[1], (2, "eggs".to_string(), false));
}

#[test]
fn edit_renames_existing_and_ignores_absent_ids() {
    let mut store = Store::new();
    create_list(&mut store, "groceries", 100);
    add_items(&mut store, "groceries", &["milk", "eggs"], 101);
    let cli = TodoCli {
        subcommand: SubCommand::Edit(EditArgs {
            todo_list_title: "groceries".to_string(),
            items: vec!["1".to_string(), "bread".to_string()],
        }),
    };
    let mut edited: Vec<String> = Vec::new();
    match run(&cli, &mut store, 102).expect("edit should succeed") {
        CliOutput::TodoItemsOutput(rows) => {
            for r in rows.iter() {
                edited.push(r.title().to_string());
            }
        },
        _ => panic!("unexpected output variant"),
    }
    assert_eq!(edited, vec!["bread".to_string()]);
    let rows = list_items(&mut store, "groceries");
    assert_eq!(rows[0], (1, "bread".to_string(), false));
    assert_eq!(rows[1], (2, "eggs".to_string(), false));

    let absent = TodoCli {
        subcommand: SubCommand::Edit(EditArgs {
            todo_list_title: "groceries".to_string(),
            items: vec!["999".to_string(), "x".to_string()],
        }),
    };
    match run(&absent, &mut store, 103).expect("absent ids are ignored, not an error") {
        CliOutput::TodoItemsOutput(rows) => assert_eq!(rows.len(), 0),
        _ => panic!("unexpected output variant"),
    }
    let rows = list_items(&mut store, "groceries");
    assert_eq!(rows[0].1, "bread");
    assert_eq!(rows[1].1, "eggs");
}

#[test]
fn clear_empties_items_but_keeps_the_list() {
    let mut store = Store::new();
    create_list(&mut store, "groceries", 100);
    add_items(&mut store, "groceries", &["milk", "eggs"], 101);
    let clear = TodoCli {
        subcommand: SubCommand::Clear(ClearArgs { todo_list_title: "groceries".to_string() }),
    };
    match run(&clear, &mut store, 102).expect("clear should succeed") {
        CliOutput::TodoListClearedOutput(t) => assert_eq!(t, "groceries"),
        _ => panic!("unexpected output variant"),
    }
    assert_eq!(list_items(&mut store, "groceries").len(), 0);

    let show = TodoCli {
        subcommand: SubCommand::ShowLists(ShowListsArgs { with_deleted: false }),
    };
    match run(&show, &mut store, 103).expect("show should succeed") {
        CliOutput::TodoListsOutput(lists) => {
            assert_eq!(lists.len(), 1);
            assert_eq!(lists[0].title(), "groceries");
        },
        _ => panic!("unexpected output variant"),
    }
}

#[test]
fn done_marks_items_and_lists_them_struck() {
    let mut store = Store::new();
    create_list(&mut store, "groceries", 100);
    add_items(&mut store, "groceries", &["milk", "eggs"], 101);
    let done = TodoCli {
        subcommand: SubCommand::Done(DoneArgs {
            todo_list_title: "groceries".to_string(),
            ids: vec![1],
        }),
    };
    match run(&done, &mut store, 102).expect("done should succeed") {
        CliOutput::TodoItemsOutput(rows) => {
            assert_eq!(rows.len(), 2);
            assert!(rows[0].is_done());
            assert!(!rows[1].is_done());
            assert_eq!(rows[0].done_at(), Some(102));
        },
        _ => panic!("unexpected output variant"),
    }
}

#[test]
fn remove_hides_items_from_default_listing() {
    let mut store = Store::new();
    create_list(&mut store, "groceries", 100);
    add_items(&mut store, "groceries", &["milk", "eggs"], 101);
    let remove = TodoCli {
        subcommand: SubCommand::Remove(RemoveArgs {
            todo_list_title: "groceries".to_string(),
            ids: vec![2],
        }),
    };
    match run(&remove, &mut store, 102).expect("remove should succeed") {
        CliOutput::TodoItemsOutput(rows) => {
            assert_eq!(rows.len(), 1);
            assert_eq!(rows[0].title(), "milk");
        },
        _ => panic!("unexpected output variant"),
    }
}

#[test]
fn unknown_list_is_an_argument_error() {
    let mut store = Store::new();
    let cli = TodoCli {
        subcommand: SubCommand::List(ListArgs { todo_list_title: "nope".to_string() }),
    };
    match run(&cli, &mut store, 100) {
        Err(CliError::ArgsError(m)) => {
            assert_eq!(m, "Could not find todo list with the given name")
        },
        _ => panic!("expected an argument error"),
    }
}

#[test]
fn empty_title_and_duplicate_title_are_rejected() {
    let mut store = Store::new();
    let empty = TodoCli {
        subcommand: SubCommand::CreateTodoList(CreateTodoListArgs { title: String::new() }),
    };
    match run(&empty, &mut store, 100) {
        Err(CliError::ArgsError(m)) => assert_eq!(m, "Todo list title cannot be ''"),
        _ => panic!("expected an argument error"),
    }
    create_list(&mut store, "groceries", 101);
    let dup = TodoCli {
        subcommand: SubCommand::CreateTodoList(CreateTodoListArgs {
            title: "groceries".to_string(),
        }),
    };
    match run(&dup, &mut store, 102) {
        Err(CliError::LogicError(m)) => {
            assert_eq!(m, "A todo list with the same title already exists!")
        },
        _ => panic!("expected a logic error"),
    }
}

#[test]
fn malformed_edit_arguments_are_rejected() {
    let mut store = Store::new();
    create_list(&mut store, "groceries", 100);
    add_items(&mut store, "groceries", &["milk"], 101);
    let odd = TodoCli {
        subcommand: SubCommand::Edit(EditArgs {
            todo_list_title: "groceries".to_string(),
            items: vec!["1".to_string()],
        }),
    };
    match run(&odd, &mut store, 102) {
        Err(CliError::ArgsError(m)) => {
            assert_eq!(m, "The input has to be pairs of ids and todo items")
        },
        _ => panic!("expected an argument error"),
    }
    let nothing = TodoCli {
        subcommand: SubCommand::Edit(EditArgs {
            todo_list_title: "groceries".to_string(),
            items: Vec::new(),
        }),
    };
    match run(&nothing, &mut store, 102) {
        Err(CliError::ArgsError(m)) => {
            assert_eq!(m, "The input has to be pairs of ids and todo items")
        },
        _ => panic!("expected an argument error"),
    }
    let not_a_number = TodoCli {
        subcommand: SubCommand::Edit(EditArgs {
            todo_list_title: "groceries".to_string(),
            items: vec!["one".to_string(), "bread".to_string()],
        }),
    };
    match run(&not_a_number, &mut store, 103) {
        Err(CliError::ArgsError(m)) => {
            assert_eq!(m, "The input has to be pairs of ids and todo items")
        },
        _ => panic!("expected an argument error"),
    }
}

#[test]
fn empty_id_sets_are_rejected_before_the_store_is_touched() {
    let mut store = Store::new();
    create_list(&mut store, "groceries", 100);
    add_items(&mut store, "groceries", &["milk"], 101);
    let done = TodoCli {
        subcommand: SubCommand::Done(DoneArgs {
            todo_list_title: "groceries".to_string(),
            ids: Vec::new(),
        }),
    };
    match run(&done, &mut store, 102) {
        Err(CliError::ArgsError(m)) => assert_eq!(m, "No ids passed to be set to done"),
        _ => panic!("expected an argument error"),
    }
    let remove = TodoCli {
        subcommand: SubCommand::Remove(RemoveArgs {
            todo_list_title: "groceries".to_string(),
            ids: Vec::new(),
        }),
    };
    match run(&remove, &mut store, 103) {
        Err(CliError::ArgsError(m)) => assert_eq!(m, "No ids passed to remove"),
        _ => panic!("expected an argument error"),
    }
    let add_nothing = TodoCli {
        subcommand: SubCommand::Add(AddArgs {
            todo_list_title: "groceries".to_string(),
            items: Vec::new(),
        }),
    };
    match run(&add_nothing, &mut store, 104) {
        Err(CliError::ArgsError(m)) => assert_eq!(m, "No items passed to be added"),
        _ => panic!("expected an argument error"),
    }
    assert_eq!(list_items(&mut store, "groceries").len(), 1);
}
