use fdb::command::Command;
use fdb::command::is_prefix;
use fdb::command::parse_command;
use fdb::command::split_whitespace;
use fdb::command::str_eq;
use fdb::command::trim_str;

#[test]
fn split_basic() {
    assert_eq!(split_whitespace("a bb  c"), vec!["a", "bb", "c"]);
}

#[test]
fn split_leading_trailing() {
    assert_eq!(split_whitespace("  info  extra "), vec!["info", "extra"]);
}

#[test]
fn split_empty() {
    assert!(split_whitespace("").is_empty());
}

#[test]
fn split_whitespace_only() {
    assert!(split_whitespace(" \t \n ").is_empty());
}

#[test]
fn split_tabs_and_newlines() {
    assert_eq!(split_whitespace("quit\tnow\n"), vec!["quit", "now"]);
}

#[test]
fn split_on_form_feed_and_vertical_tab() {
    assert_eq!(split_whitespace("a\u{0C}b"), vec!["a", "b"]);
    assert_eq!(split_whitespace("a\u{0B}b"), vec!["a", "b"]);
}

#[test]
fn split_on_unicode_spaces() {
    assert_eq!(split_whitespace("a\u{A0}b\u{2003}c"), vec!["a", "b", "c"]);
    assert!(split_whitespace("\u{2028}\u{3000}").is_empty());
}

#[test]
fn trim_strips_unicode_whitespace() {
    assert_eq!(trim_str("\u{0C} info \u{A0}"), "info");
    assert_eq!(trim_str("   "), "");
    assert_eq!(trim_str("c"), "c");
    assert_eq!(trim_str(" a  b "), "a  b");
}

#[test]
fn prefix_accepts_initial_segments() {
    assert!(is_prefix("c", "continue"));
    assert!(is_prefix("cont", "continue"));
    assert!(is_prefix("continue", "continue"));
    assert!(is_prefix("", "continue"));
}

#[test]
fn prefix_rejects_others() {
    assert!(!is_prefix("continueX", "continue"));
    assert!(!is_prefix("x", "continue"));
    assert!(!is_prefix("ont", "continue"));
}

#[test]
fn str_eq_basic() {
    assert!(str_eq("info", "info"));
    assert!(!str_eq("info", "inf"));
    assert!(!str_eq("info", "int"));
    assert!(str_eq("", ""));
}

#[test]
fn every_continue_prefix_parses_as_continue() {
    let full = "continue";
    for end in 1..=full.len() {
        let p = &full[..end];
        assert_eq!(parse_command(p), Command::Continue, "prefix {:?}", p);
    }
}

#[test]
fn continue_with_suffix_is_unknown() {
    assert_eq!(
        parse_command("continueX"),
        Command::Unknown("continueX".to_string())
    );
}

#[test]
fn exact_commands_parse() {
    assert_eq!(parse_command("help"), Command::Help);
    assert_eq!(parse_command("info"), Command::Info);
    assert_eq!(parse_command("quit"), Command::Quit);
    assert_eq!(parse_command("exit"), Command::Quit);
}

#[test]
fn first_token_decides() {
    assert_eq!(parse_command("  info  "), Command::Info);
    assert_eq!(parse_command("c somewhere"), Command::Continue);
    assert_eq!(parse_command("quit now"), Command::Quit);
}

#[test]
fn case_sensitive_and_unknown() {
    assert_eq!(parse_command("HELP"), Command::Unknown("HELP".to_string()));
    assert_eq!(parse_command("step"), Command::Unknown("step".to_string()));
    assert_eq!(parse_command(""), Command::Unknown("".to_string()));
}
