use todo_tools::cliutils::echo::EchoCommand;
use todo_tools::echo::{EchoCommand as FullEchoCommand, EchoError};
use todo_tools::cliutils::find::{FindCommand, FindCommandResult};
use todo_tools::cat::{CatCommand, CatError};
use todo_tools::grep::{str_contains, match_lines, GrepCommandMatch, GrepCommandResult};
use todo_tools::ls::LsCommand;
use todo_tools::util::parse_u32;

#[test]
fn echo_appends_a_newline_unless_disabled() {
    let cmd = EchoCommand { disable_new_line: false, value: "hello world".to_string() };
    assert_eq!(cmd.exec().echo_val, "hello world\n");
    let quiet = EchoCommand { disable_new_line: true, value: "hello world".to_string() };
    assert_eq!(quiet.exec().echo_val, "hello world");
}

fn full_echo(value: &str) -> Result<String, EchoError> {
    let cmd = FullEchoCommand {
        disable_new_line: false,
        enable_escaping: true,
        value: value.to_string(),
    };
    cmd.exec().map(|r| r.echo_val)
}

#[test]
fn full_echo_interprets_named_escapes() {
    assert_eq!(full_echo("hi").unwrap(), "hi\n");
    assert_eq!(full_echo("a\\tb").unwrap(), "a\tb\n");
    assert_eq!(full_echo("a\\nb").unwrap(), "a\nb\n");
    assert_eq!(full_echo("a\\qb").unwrap(), "a\\qb\n");
    let quiet = FullEchoCommand {
        disable_new_line: true,
        enable_escaping: true,
        value: "hi".to_string(),
    };
    assert_eq!(quiet.exec().unwrap().echo_val, "hi");
}

#[test]
fn full_echo_stops_at_the_cancel_escape() {
    assert_eq!(full_echo("ab\\cde").unwrap(), "ab");
}

#[test]
fn full_echo_reads_octal_and_hex_values() {
    assert_eq!(full_echo("\\0101").unwrap(), "A\\0\n");
    assert_eq!(full_echo("\\x41").unwrap(), "A\\x\n");
    assert_eq!(full_echo("\\x4").unwrap(), "\u{4}\n");
    assert_eq!(full_echo("\\0777"), Err(EchoError::InvalidEscapeValue));
    assert_eq!(full_echo("\\xzz"), Err(EchoError::InvalidEscapeValue));
}

#[test]
fn find_renders_entries_one_per_line() {
    let _cmd = FindCommand { path: ".".to_string() };
    let result = FindCommandResult::new(vec![
        ".".to_string(),
        "./a".to_string(),
        "./b/c".to_string(),
    ]);
    assert_eq!(result.render(), ".\n./a\n./b/c");
    assert_eq!(FindCommandResult::new(Vec::new()).render(), "");
}

#[test]
fn grep_substring_search() {
    assert!(str_contains("hello world", "lo wo"));
    assert!(str_contains("hello", ""));
    assert!(str_contains("hello", "hello"));
    assert!(!str_contains("hello", "hello!"));
    assert!(!str_contains("hello", "z"));
}

#[test]
fn grep_collects_matching_lines_with_their_file() {
    let lines = vec![
        "the cat sat".to_string(),
        "on the mat".to_string(),
        "catalogue".to_string(),
    ];
    let matches = match_lines("cat", Some("pets.txt"), &lines);
    assert_eq!(matches.len(), 2);
    assert_eq!(matches[0].line, "the cat sat");
    assert_eq!(matches[1].line, "catalogue");
    assert_eq!(matches[0].file.as_deref(), Some("pets.txt"));
    let anonymous = match_lines("the", None, &lines);
    assert_eq!(anonymous.len(), 2);
    assert!(anonymous[0].file.is_none());
    let single = GrepCommandMatch::new("line", None);
    let result = GrepCommandResult::new(vec![single], "pat".to_string());
    assert_eq!(result.pattern, "pat");
    assert_eq!(result.matches.len(), 1);
}

#[test]
fn grep_renders_matches_with_highlighting() {
    let lines = vec!["the cat sat".to_string(), "catalogue".to_string()];
    let matches = match_lines("cat", Some("pets.txt"), &lines);
    let result = GrepCommandResult::new(matches, "cat".to_string());
    let tag = "\u{1b}[35mpets.txt\u{1b}[0m\u{1b}[36m:\u{1b}[0m";
    let expected = format!(
        "{}the \u{1b}[31mcat\u{1b}[0m sat\n{}\u{1b}[31mcat\u{1b}[0malogue",
        tag, tag
    );
    assert_eq!(result.render(), expected);
    let plain = GrepCommandResult::new(match_lines("a", None, &lines), "a".to_string());
    assert_eq!(plain.render(), "the c\u{1b}[31ma\u{1b}[0mt sat\nc\u{1b}[31ma\u{1b}[0mtalogue");
}

#[test]
fn cat_numbers_all_lines() {
    let cmd = CatCommand {
        number_nonblank: false,
        number: true,
        show_ends: false,
        squeeze_blank: false,
        show_tabs: false,
        file_paths: vec!["f".to_string()],
    };
    let lines = vec!["a".to_string(), "".to_string(), "b".to_string()];
    let (text, next) = cmd.render_file(&lines, 1);
    assert_eq!(text, "     1\ta\n     2\t\n     3\tb\n");
    assert_eq!(next, 4);
}

#[test]
fn cat_numbers_nonblank_lines_only() {
    let cmd = CatCommand {
        number_nonblank: true,
        number: false,
        show_ends: false,
        squeeze_blank: false,
        show_tabs: false,
        file_paths: vec!["f".to_string()],
    };
    let lines = vec!["a".to_string(), "".to_string(), "b".to_string()];
    let (text, next) = cmd.render_file(&lines, 1);
    assert_eq!(text, "     1\ta\n\n     2\tb\n");
    assert_eq!(next, 3);
}

#[test]
fn cat_squeezes_repeated_blank_lines() {
    let cmd = CatCommand {
        number_nonblank: false,
        number: false,
        show_ends: false,
        squeeze_blank: true,
        show_tabs: false,
        file_paths: vec!["f".to_string()],
    };
    let lines = vec![
        "a".to_string(),
        "".to_string(),
        "".to_string(),
        "".to_string(),
        "b".to_string(),
    ];
    let (text, _) = cmd.render_file(&lines, 1);
    assert_eq!(text, "a\n\nb\n");
}

#[test]
fn cat_marks_ends_and_tabs() {
    let cmd = CatCommand {
        number_nonblank: false,
        number: false,
        show_ends: true,
        squeeze_blank: false,
        show_tabs: true,
        file_paths: vec!["f".to_string()],
    };
    let lines = vec!["a\tb".to_string(), "plain".to_string()];
    let (text, _) = cmd.render_file(&lines, 1);
    assert_eq!(text, "a^Ib$\nplain$\n");
}

#[test]
fn cat_error_message_names_the_file() {
    let err = CatError::NoSuchFile { path: "missing.txt".to_string() };
    assert_eq!(err.message(), "No such file \"missing.txt\"");
}

#[test]
fn ls_flags() {
    let cmd = LsCommand {
        all: false,
        almost_all: true,
        long_format: true,
        human_readable: true,
        path: ".".to_string(),
    };
    assert!(cmd.human_readable());
}

#[test]
fn edit_ids_parse_like_the_standard_library() {
    assert_eq!(parse_u32("42"), Some(42));
    assert_eq!(parse_u32("+7"), Some(7));
    assert_eq!(parse_u32("0"), Some(0));
    assert_eq!(parse_u32("4294967295"), Some(u32::MAX));
    assert_eq!(parse_u32("4294967296"), None);
    assert_eq!(parse_u32(""), None);
    assert_eq!(parse_u32("+"), None);
    assert_eq!(parse_u32("12a"), None);
    assert_eq!(parse_u32("-1"), None);
    assert_eq!(parse_u32(" 1"), None);
}
