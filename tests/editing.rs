use termedit::editor::{App, Editor};
use termedit::event::{Action, Event, KeyEvent};
use termedit::text::{count_lines, seed_into};
use termedit::width::cursor_at;

fn key(k: KeyEvent) -> Event {
    Event::Input(k)
}

fn typed(app: &mut App, text: &str) {
    for c in text.chars() {
        assert_eq!(app.handle(key(KeyEvent::Char(c))), Action::Continue);
    }
}

fn editor_with(loaded: Option<&str>) -> Editor {
    let mut e = Editor::new("notes.txt".to_string(), loaded.map(|s| s.to_string()));
    e.ensure_seeded();
    e
}

#[test]
fn typing_appends_in_order() {
    let mut app = App::default();
    app.input.push_str("ab");
    typed(&mut app, "xyz\u{e9}");
    assert_eq!(app.input, "abxyz\u{e9}");
}

#[test]
fn enter_appends_line_feed() {
    let mut app = App::default();
    typed(&mut app, "a");
    app.handle(key(KeyEvent::Char('\n')));
    typed(&mut app, "b");
    assert_eq!(app.input, "a\nb");
}

#[test]
fn backspace_on_empty_is_noop() {
    let mut app = App::default();
    assert_eq!(app.handle(key(KeyEvent::Backspace)), Action::Continue);
    assert_eq!(app.input.len(), 0);
}

#[test]
fn backspace_then_retype_restores() {
    let mut app = App::default();
    typed(&mut app, "hello\u{1F600}");
    let before = app.input.clone();
    app.handle(key(KeyEvent::Backspace));
    assert_eq!(app.input, "hello");
    app.handle(key(KeyEvent::Char('\u{1F600}')));
    assert_eq!(app.input, before);
}

#[test]
fn control_keys_map_to_actions() {
    let mut app = App::default();
    typed(&mut app, "q");
    assert_eq!(app.handle(key(KeyEvent::Ctrl('s'))), Action::Save);
    assert_eq!(app.handle(key(KeyEvent::Ctrl('x'))), Action::Quit);
    assert_eq!(app.handle(key(KeyEvent::Ctrl('a'))), Action::Continue);
    assert_eq!(app.handle(key(KeyEvent::Down)), Action::Continue);
    assert_eq!(app.handle(key(KeyEvent::Other)), Action::Continue);
    assert_eq!(app.handle(Event::Tick), Action::Continue);
    assert_eq!(app.input, "q");
}

#[test]
fn new_editor_trims_loaded_text() {
    let e = Editor::new("f".to_string(), Some("abc \n\t\n".to_string()));
    assert_eq!(e.original, "abc");
    assert_eq!(e.buffer(), "");
    assert!(!e.seeded);
    assert_eq!(e.path, "f");
}

#[test]
fn save_then_reload_round_trip() {
    let mut e = editor_with(Some("line1\nline2"));
    assert_eq!(e.buffer(), "line1\nline2");
    assert_eq!(e.step(key(KeyEvent::Ctrl('s'))), Action::Save);
    let saved: Vec<u8> = e.buffer().as_bytes().to_vec();
    assert_eq!(saved, b"line1\nline2".to_vec());
    let reloaded = editor_with(Some(&String::from_utf8(saved).unwrap()));
    assert_eq!(reloaded.buffer(), e.buffer());
}

#[test]
fn seeding_runs_once() {
    let mut e = Editor::new("f".to_string(), Some("one\ntwo".to_string()));
    e.ensure_seeded();
    e.ensure_seeded();
    assert_eq!(e.buffer(), "one\ntwo");
    e.step(key(KeyEvent::Char('!')));
    e.step(Event::Tick);
    e.ensure_seeded();
    assert_eq!(e.buffer(), "one\ntwo!");
}

#[test]
fn first_step_seeds_then_applies() {
    let mut e = Editor::new("f".to_string(), Some("hi".to_string()));
    assert_eq!(e.step(key(KeyEvent::Char('!'))), Action::Continue);
    assert_eq!(e.buffer(), "hi!");
}

#[test]
fn hello_backspace_then_retype() {
    let mut e = editor_with(Some("hello"));
    assert_eq!(e.buffer(), "hello");
    e.step(key(KeyEvent::Backspace));
    assert_eq!(e.buffer(), "hell");
    e.step(key(KeyEvent::Char('o')));
    assert_eq!(e.buffer(), "hello");
}

#[test]
fn unreadable_file_starts_empty_and_saves_typed_text() {
    let mut e = editor_with(None);
    assert_eq!(e.buffer(), "");
    for c in "abc".chars() {
        assert_eq!(e.step(key(KeyEvent::Char(c))), Action::Continue);
    }
    assert_eq!(e.step(key(KeyEvent::Ctrl('s'))), Action::Save);
    assert_eq!(e.buffer().as_bytes(), b"abc");
}

#[test]
fn seeding_drops_carriage_returns_of_line_endings() {
    let mut buf = String::from(">");
    seed_into(&mut buf, "a\r\nb\rc\n");
    assert_eq!(buf, ">a\nb\rc");
    let mut empty = String::new();
    seed_into(&mut empty, "");
    assert_eq!(empty, "");
    let mut blank = String::new();
    seed_into(&mut blank, "x\n\ny");
    assert_eq!(blank, "x\n\ny");
}

#[test]
fn line_counts_follow_str_lines() {
    for s in ["", "a", "a\n", "a\nb", "a\r\nb\r\n", "\n\n", "x\n\ny", "tail\r"] {
        assert_eq!(count_lines(s), s.lines().count(), "{:?}", s);
    }
    assert_eq!(count_lines("a\nb\nc"), 3);
}

#[test]
fn cursor_formula() {
    assert_eq!(cursor_at(0, 0, 5, 1), (6, 1));
    assert_eq!(cursor_at(2, 3, 0, 0), (3, 3));
    assert_eq!(cursor_at(10, 20, 65536 + 4, 65536 + 2), (15, 22));
    assert_eq!(cursor_at(65535, 65535, 0, 1), (0, 0));
}

#[test]
fn cursor_uses_display_width_and_loaded_lines() {
    let mut e = editor_with(Some("ab\ncd"));
    e.step(key(KeyEvent::Char('\n')));
    e.step(key(KeyEvent::Char('\n')));
    // Line feeds take no columns, so "ab\ncd\n\n" is 4 wide; the loaded
    // text had 2 lines.
    assert_eq!(e.cursor(1, 1), (6, 3));
    let mut w = editor_with(None);
    w.step(key(KeyEvent::Char('\u{4E2D}')));
    assert_eq!(w.cursor(0, 0), (3, 0));
}
