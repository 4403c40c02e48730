use todo_tools::{Store, TodoCli, SubCommand, CliOutput};
use todo_tools::{AddArgs, CreateTodoListArgs, DoneArgs, ShowListsArgs, ListArgs};
use todo_tools::render::{fmt_todo_lists, fmt_todo_list_items, u32_to_string, pad_right_str,
    strike};

fn rfc(secs: u32) -> String {
    chrono::DateTime::from_timestamp(secs as i64, 0).unwrap().to_rfc2822()
}

#[test]
fn numbers_render_in_decimal() {
    assert_eq!(u32_to_string(0), "0");
    assert_eq!(u32_to_string(7), "7");
    assert_eq!(u32_to_string(105), "105");
    assert_eq!(u32_to_string(u32::MAX), "4294967295");
}

#[test]
fn padding_fills_but_never_truncates() {
    assert_eq!(pad_right_str("ab", 5), "ab   ");
    assert_eq!(pad_right_str("abcdef", 5), "abcdef");
    assert_eq!(pad_right_str("", 3), "   ");
}

#[test]
fn strike_wraps_in_terminal_styling() {
    assert_eq!(strike("milk"), "\u{1b}[9mmilk\u{1b}[29m");
}

#[test]
fn empty_tables_render_their_messages() {
    assert_eq!(fmt_todo_lists(&[]), "No lists created");
    assert_eq!(fmt_todo_list_items(&[]), "list is empty");
}

#[test]
fn list_table_matches_the_layout() {
    let mut store = Store::new();
    let cli = TodoCli {
        subcommand: SubCommand::CreateTodoList(CreateTodoListArgs {
            title: "groceries".to_string(),
        }),
    };
    cli.exec(&mut store, 1000).unwrap();
    let show = TodoCli {
        subcommand: SubCommand::ShowLists(ShowListsArgs { with_deleted: false }),
    };
    let out = show.exec(&mut store, 1001).unwrap();
    let rendered = out.render();
    let mut expected = format!(" {: <30}| {: <30}\n", "list", "created at");
    expected.push_str(&format!("{}|{}", "=".repeat(31), "=".repeat(31)));
    expected.push_str(&format!("\n {: <30}| {: <30}", "groceries", rfc(1000)));
    assert_eq!(rendered, expected);
}

#[test]
fn item_table_strikes_completed_items() {
    let mut store = Store::new();
    TodoCli {
        subcommand: SubCommand::CreateTodoList(CreateTodoListArgs {
            title: "groceries".to_string(),
        }),
    }
        .exec(&mut store, 1000)
        .unwrap();
    TodoCli {
        subcommand: SubCommand::Add(AddArgs {
            todo_list_title: "groceries".to_string(),
            items: vec!["milk".to_string(), "eggs".to_string()],
        }),
    }
        .exec(&mut store, 1001)
        .unwrap();
    TodoCli {
        subcommand: SubCommand::Done(DoneArgs {
            todo_list_title: "groceries".to_string(),
            ids: vec![1],
        }),
    }
        .exec(&mut store, 1002)
        .unwrap();
    let list = TodoCli {
        subcommand: SubCommand::List(ListArgs { todo_list_title: "groceries".to_string() }),
    };
    let out = list.exec(&mut store, 1003).unwrap();
    let rendered = out.render();

    let mut expected = format!(
        " {: <5}| {: <30}| {: <30}| {: <30}\n",
        "id", "item", "created at", "done at"
    );
    expected.push_str(&format!(
        "{}|{}|{}|{}",
        "=".repeat(6),
        "=".repeat(31),
        "=".repeat(31),
        "=".repeat(31)
    ));
    expected.push_str(&format!(
        "\n {: <5}| {: <30}| {: <30}| {: <30}",
        format!("\u{1b}[9m1\u{1b}[29m"),
        format!("\u{1b}[9mmilk\u{1b}[29m"),
        rfc(1001),
        rfc(1002)
    ));
    expected.push_str(&format!("\n {: <5}| {: <30}| {: <30}| {: <30}", "2", "eggs", rfc(1001), ""));
    assert_eq!(rendered, expected);
}

#[test]
fn confirmation_messages_render() {
    let created = CliOutput::TodoListCreatedOutput("groceries");
    assert_eq!(created.render(), "Created a new list 'groceries'");
    let cleared = CliOutput::TodoListClearedOutput("groceries");
    assert_eq!(cleared.render(), "'groceries' list has been cleared");
}
