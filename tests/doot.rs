use doot::marker::annotation_of_line;
use doot::presenter::{App, EntryKind, InputEvent, KeyCode, KeyEventKind};
use doot::scan::{annotations_of_lines, file_annotations};

fn found(content: &str) -> Vec<String> {
    file_annotations(content.as_bytes()).expect("search succeeds")
}

fn press(c: char) -> InputEvent {
    InputEvent::Key { code: KeyCode::Char(c), kind: KeyEventKind::Press }
}

#[test]
fn colon_annotation_is_trimmed() {
    assert_eq!(annotation_of_line("// TODO: fix this"), Some("fix this".to_string()));
    assert_eq!(found("// TODO: fix this\n"), vec!["fix this".to_string()]);
}

#[test]
fn bare_marker_gives_empty_annotation() {
    assert_eq!(annotation_of_line("   // TODO"), Some(String::new()));
    assert_eq!(found("   // TODO\n"), vec![String::new()]);
}

#[test]
fn marker_not_at_line_start_is_ignored() {
    assert_eq!(annotation_of_line("x // TODO: not at line start"), None);
    assert!(found("x // TODO: not at line start\n").is_empty());
}

#[test]
fn marker_without_comment_slashes_is_ignored() {
    assert_eq!(annotation_of_line("TODO: something"), None);
    assert_eq!(annotation_of_line("//TODO: something"), None);
    assert!(found("TODO: something\n/* TODO */\n").is_empty());
}

#[test]
fn marker_is_case_sensitive() {
    assert_eq!(annotation_of_line("// todo: lower"), None);
    assert!(found("// todo: lower\n").is_empty());
}

#[test]
fn colon_is_optional() {
    assert_eq!(annotation_of_line("// TODO fix later"), Some("fix later".to_string()));
    assert_eq!(annotation_of_line("\t// TODO:   spaced out  \r\n"), Some("spaced out".to_string()));
    assert_eq!(annotation_of_line("// TODO::double"), Some(":double".to_string()));
}

#[test]
fn lines_come_out_in_order_with_duplicates() {
    let text = "fn main() {\n    // TODO: first\n    let x = 1; // TODO: trailing\n  // TODO: first\n// TODO\n}\n";
    assert_eq!(
        found(text),
        vec!["first".to_string(), "first".to_string(), String::new()]
    );
}

#[test]
fn binary_content_yields_nothing() {
    let mut bytes = b"// TODO: hidden\n".to_vec();
    bytes.push(0);
    bytes.extend_from_slice(b"\n// TODO: also hidden\n");
    assert_eq!(file_annotations(&bytes), Ok(Vec::new()));
}

#[test]
fn empty_content_yields_nothing() {
    assert_eq!(file_annotations(b""), Ok(Vec::new()));
}

#[test]
fn annotations_of_lines_skips_other_lines() {
    let lines = vec![
        "  // TODO: a\n".to_string(),
        "nothing here\n".to_string(),
        "// TODO b\n".to_string(),
    ];
    assert_eq!(annotations_of_lines(&lines), vec!["a".to_string(), "b".to_string()]);
    assert!(annotations_of_lines(&Vec::new()).is_empty());
}

#[test]
fn only_regular_files_are_searched() {
    assert!(EntryKind::File.is_searched());
    assert!(!EntryKind::Other.is_searched());
    assert!(!EntryKind::Unknown.is_searched());
}

#[test]
fn new_app_is_empty_and_running() {
    let app = App::new();
    assert!(app.todos().is_empty());
    assert!(!app.exit());
    let d = App::default();
    assert!(d.todos().is_empty());
    assert!(!d.exit());
}

#[test]
fn scan_file_appends_in_discovery_order() {
    let mut app = App::new();
    assert_eq!(app.scan_file(b"// TODO: one\n"), Ok(()));
    assert_eq!(app.scan_file(b"no markers\n"), Ok(()));
    assert_eq!(app.scan_file(b"  // TODO: two\n// TODO: three\n"), Ok(()));
    assert_eq!(
        app.todos(),
        &vec!["one".to_string(), "two".to_string(), "three".to_string()]
    );
    assert!(!app.exit());
}

#[test]
fn scan_error_leaves_list_unchanged() {
    let mut app = App::new();
    assert_eq!(app.scan_file(b"// TODO: kept\n"), Ok(()));
    let bad: &[u8] = b"// TODO: \xff\xfe broken\n";
    assert!(app.scan_file(bad).is_err());
    assert_eq!(app.todos(), &vec!["kept".to_string()]);
}

#[test]
fn scanning_twice_gives_the_same_list() {
    let files: Vec<&[u8]> = vec![
        b"// TODO: a\nx\n// TODO: b\n",
        b"",
        b"   // TODO\n// TODO: a\n",
    ];
    let mut first = App::new();
    let mut second = App::new();
    for f in &files {
        first.scan_file(f).unwrap();
    }
    for f in &files {
        second.scan_file(f).unwrap();
    }
    assert_eq!(first.todos(), second.todos());
    assert_eq!(first.todos().len(), 4);
}

#[test]
fn q_press_requests_exit() {
    let mut app = App::new();
    app.handle_event(press('q'));
    assert!(app.exit());
}

#[test]
fn other_keys_keep_running() {
    let mut app = App::new();
    app.scan_file(b"// TODO: stay\n").unwrap();
    app.handle_event(press('s'));
    app.handle_event(press('Q'));
    app.handle_event(InputEvent::Key { code: KeyCode::Other, kind: KeyEventKind::Press });
    app.handle_event(InputEvent::Key { code: KeyCode::Char('q'), kind: KeyEventKind::Release });
    app.handle_event(InputEvent::Key { code: KeyCode::Char('q'), kind: KeyEventKind::Repeat });
    app.handle_event(InputEvent::Other);
    assert!(!app.exit());
    assert_eq!(app.todos(), &vec!["stay".to_string()]);
    app.handle_event(press('q'));
    assert!(app.exit());
    app.handle_event(press('x'));
    assert!(app.exit());
}

#[test]
fn empty_tree_renders_panel_without_entries() {
    let app = App::new();
    let panel = app.panel();
    assert!(panel.entries.is_empty());
    assert_eq!(panel.title, " doot \u{1f480}\u{1f3ba} ");
    assert!(panel.bottom_to_top);
    assert_eq!(panel.actions.len(), 2);
    assert_eq!(panel.actions[0].label, " Settings ");
    assert_eq!(panel.actions[0].key, "<S> ");
    assert_eq!(panel.actions[1].label, " Quit ");
    assert_eq!(panel.actions[1].key, "<Q> ");
}

#[test]
fn panel_lists_annotations_in_list_order() {
    let mut app = App::new();
    app.scan_file(b"// TODO: older\n// TODO: newer\n").unwrap();
    let panel = app.panel();
    assert_eq!(panel.entries, vec!["older".to_string(), "newer".to_string()]);
}

#[test]
fn path_defaults_to_current_directory() {
    assert_eq!(doot::cli::init_cli(None).path, ".");
    assert_eq!(doot::cli::init_cli(Some("src/app".to_string())).path, "src/app");
}

#[test]
fn marker_pattern_compiles() {
    assert_eq!(doot::scan::check_marker_pattern(), Ok(()));
}
