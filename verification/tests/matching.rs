//! The match engine: compiling, matching, and rendering the report.

use regex_tester::app::App;
use regex_tester::engine::dec_string;
use regex_tester::engine::join_lines;
use regex_tester::engine::render_captures;
use regex_tester::handler::handle_key_events;
use regex_tester::handler::update_output;
use regex_tester::handler::KeyInput;

fn type_str(app: &mut App, s: &str) {
    for c in s.chars() {
        handle_key_events(KeyInput::Char(c), app);
    }
}

/// Types a pattern into the pattern field of a fresh application, then a
/// body into the body field.
fn session(pattern: &str, body_keys: &[KeyInput]) -> App {
    let mut app = App::new();
    handle_key_events(KeyInput::Tab, &mut app);
    type_str(&mut app, pattern);
    handle_key_events(KeyInput::Tab, &mut app);
    for k in body_keys {
        handle_key_events(*k, &mut app);
    }
    app
}

fn chars(s: &str) -> Vec<KeyInput> {
    s.chars().map(KeyInput::Char).collect()
}

#[test]
fn matches_are_ordered_left_to_right() {
    let app = session("a", &chars("aaa"));
    assert_eq!(app.output, "0.\n  0: a\n1.\n  0: a\n2.\n  0: a\n");
}

#[test]
fn named_group_renders_name_instead_of_index() {
    let app = session("(?P<num>\\d+)", &chars("x12y"));
    assert_eq!(app.output, "0.\n  0: 12\n  num: 12\n");
}

#[test]
fn unnamed_groups_render_their_index() {
    let app = session("(a)(b)", &chars("ab"));
    assert_eq!(app.output, "0.\n  0: ab\n  1: a\n  2: b\n");
}

#[test]
fn matching_spans_joined_lines() {
    let mut keys = chars("ab");
    keys.push(KeyInput::Enter);
    keys.extend(chars("b"));
    let app = session("b", &keys);
    assert_eq!(app.text, vec!["ab".to_string(), "b".to_string()]);
    assert_eq!(app.output, "0.\n  0: b\n1.\n  0: b\n");
}

#[test]
fn zero_length_matches_advance() {
    let app = session("a*", &chars("b"));
    assert_eq!(app.output, "0.\n  0: \n1.\n  0: \n");
}

#[test]
fn no_match_renders_empty_report() {
    let app = session("z", &chars("abc"));
    assert_eq!(app.output, "");
}

#[test]
fn compile_error_shows_compiler_message() {
    let mut app = App::new();
    handle_key_events(KeyInput::Tab, &mut app);
    type_str(&mut app, "a(");
    let expected = regex::Regex::new("a(").unwrap_err().to_string();
    assert_eq!(app.output, expected);
    assert!(!expected.is_empty());
    assert!(app.re.is_some());
}

#[test]
fn compile_error_keeps_last_valid_pattern() {
    let mut app = App::new();
    handle_key_events(KeyInput::Tab, &mut app);
    type_str(&mut app, "a");
    assert_eq!(app.re.as_deref(), Some("a"));
    type_str(&mut app, "(");
    // the failed compile left the previously compiled pattern in place
    assert_eq!(app.re.as_deref(), Some("a"));
    // a body edit still matches with the stale pattern
    handle_key_events(KeyInput::Tab, &mut app);
    type_str(&mut app, "aa");
    assert_eq!(app.output, "0.\n  0: a\n1.\n  0: a\n");
}

#[test]
fn empty_pattern_clears_output_and_pattern() {
    let mut app = App::new();
    handle_key_events(KeyInput::Tab, &mut app);
    type_str(&mut app, "a");
    handle_key_events(KeyInput::Tab, &mut app);
    type_str(&mut app, "aa");
    assert_ne!(app.output, "");
    handle_key_events(KeyInput::Tab, &mut app);
    handle_key_events(KeyInput::Backspace, &mut app);
    assert_eq!(app.regex, "");
    assert_eq!(app.output, "");
    assert!(app.re.is_none());
}

#[test]
fn recompute_is_idempotent() {
    let mut app = App::new();
    handle_key_events(KeyInput::Tab, &mut app);
    type_str(&mut app, "(?P<w>[a-z]+)");
    handle_key_events(KeyInput::Tab, &mut app);
    type_str(&mut app, "one two");
    let first = app.output.clone();
    update_output(&mut app);
    assert_eq!(app.output, first);
    update_output(&mut app);
    assert_eq!(app.output, first);
}

#[test]
fn pattern_edits_recompute_with_new_pattern() {
    let mut app = App::new();
    type_str(&mut app, "abab");
    handle_key_events(KeyInput::Tab, &mut app);
    type_str(&mut app, "a");
    assert_eq!(app.output, "0.\n  0: a\n1.\n  0: a\n");
    handle_key_events(KeyInput::Backspace, &mut app);
    type_str(&mut app, "b");
    assert_eq!(app.output, "0.\n  0: b\n1.\n  0: b\n");
}

#[test]
fn dec_string_renders_decimal() {
    assert_eq!(dec_string(0), "0");
    assert_eq!(dec_string(7), "7");
    assert_eq!(dec_string(10), "10");
    assert_eq!(dec_string(409), "409");
    assert_eq!(dec_string(65536), "65536");
}

#[test]
fn join_lines_uses_newline_separator() {
    assert_eq!(join_lines(&vec!["a".to_string(), "".to_string(), "c".to_string()]), "a\n\nc");
    assert_eq!(join_lines(&vec![String::new()]), "");
    assert_eq!(join_lines(&vec![]), "");
}

#[test]
fn render_skips_groups_that_did_not_participate() {
    let table = vec![vec![
        (None, Some("ab".to_string())),
        (Some("g".to_string()), None),
        (None, Some("x".to_string())),
    ]];
    assert_eq!(render_captures(&table), "0.\n  0: ab\n  2: x\n");
}

#[test]
fn optional_group_not_participating_is_skipped_in_report() {
    let app = session("(a)|(b)", &chars("ab"));
    assert_eq!(app.output, "0.\n  0: a\n  1: a\n1.\n  0: b\n  2: b\n");
}

#[test]
fn render_of_empty_table_is_empty() {
    assert_eq!(render_captures(&vec![]), "");
}
