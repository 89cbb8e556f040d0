use sharkit::{command_for, Command, Entry, Key, KeyPress, Outcome, Session, CANCEL_EXIT, CONFIRM_EXIT};

fn entry(name: &str) -> Entry {
    Entry::new(name.to_string(), name.to_string(), false)
}

fn session_of(names: &[&str]) -> Session {
    Session::new(names.iter().map(|n| entry(n)).collect())
}

fn names(s: &Session) -> Vec<String> {
    (0..s.len()).map(|i| s.entry(i).name().clone()).collect()
}

fn press(c: char) -> KeyPress {
    KeyPress { key: Key::Char(c), shift: false }
}

fn shifted(c: char) -> KeyPress {
    KeyPress { key: Key::Char(c), shift: true }
}

fn key(k: Key) -> KeyPress {
    KeyPress { key: k, shift: false }
}

fn run(s: &mut Session, keys: &[KeyPress]) -> Outcome {
    let mut last = Outcome::Continue;
    for k in keys {
        last = s.apply(command_for(*k));
        if last == Outcome::Confirmed || last == Outcome::Cancelled {
            break;
        }
    }
    last
}

#[test]
fn sort_visible_before_hidden_case_insensitive() {
    let s = session_of(&[".b", "A", "b", ".a"]);
    assert_eq!(names(&s), vec!["A", "b", ".a", ".b"]);
}

#[test]
fn sort_ignores_case_within_groups() {
    let s = session_of(&["c", "B", ".Z", "a", ".y"]);
    assert_eq!(names(&s), vec!["a", "B", "c", ".y", ".Z"]);
}

#[test]
fn new_session_starts_clean() {
    let s = session_of(&["x", "y"]);
    assert_eq!(s.cursor(), 0);
    assert_eq!(s.selected_count(), 0);
    assert!(s.show_preview());
    assert_eq!(s.current_path(), Some("x".to_string()));
}

#[test]
fn move_up_then_down_round_trip() {
    for start in 0..3 {
        let mut s = session_of(&["a", "b", "c"]);
        for _ in 0..start {
            s.move_down();
        }
        s.move_up();
        s.move_down();
        assert_eq!(s.cursor(), start);
        s.move_down();
        s.move_up();
        assert_eq!(s.cursor(), start);
    }
}

#[test]
fn moves_wrap_around() {
    let mut s = session_of(&["a", "b", "c"]);
    s.move_up();
    assert_eq!(s.cursor(), 2);
    s.move_down();
    assert_eq!(s.cursor(), 0);
}

#[test]
fn toggle_twice_restores() {
    let mut s = session_of(&["a", "b"]);
    s.move_down();
    s.toggle_current();
    assert!(s.is_selected(1));
    assert_eq!(s.selected_count(), 1);
    s.toggle_current();
    assert!(!s.is_selected(1));
    assert_eq!(s.cursor(), 1);
    assert_eq!(s.selected_count(), 0);
}

#[test]
fn select_all_and_none_counts() {
    let mut s = session_of(&["a", "b", "c"]);
    s.select_all();
    assert_eq!(s.selected_count(), 3);
    s.select_none();
    assert_eq!(s.selected_count(), 0);
}

#[test]
fn select_only_clamps_to_last() {
    let mut s = session_of(&["a", "b", "c"]);
    s.select_all();
    s.select_only_n(1);
    assert_eq!(s.selected_count(), 1);
    assert!(s.is_selected(1));
    assert_eq!(s.cursor(), 1);
    s.select_only_n(8);
    assert_eq!(s.selected_count(), 1);
    assert!(s.is_selected(2));
    assert_eq!(s.cursor(), 2);
}

#[test]
fn empty_catalog_is_inert() {
    let mut s = session_of(&[]);
    assert_eq!(s.preview(), "no files available");
    s.move_up();
    s.move_down();
    s.toggle_current();
    s.select_only_n(3);
    assert_eq!(s.cursor(), 0);
    assert_eq!(s.selected_count(), 0);
    assert_eq!(s.current_path(), None);
    s.load_preview(Ok("text".to_string()));
    assert_eq!(s.preview(), "no files available");
    assert_eq!(s.apply(Command::MoveDown), Outcome::Continue);
    assert_eq!(s.apply(Command::SelectLast), Outcome::Continue);
    assert_eq!(s.preview_title(), "Preview");
}

#[test]
fn end_to_end_confirm() {
    let mut s = session_of(&["a.txt", "b.txt"]);
    let out = run(&mut s, &[press(' '), key(Key::Down), press(' '), key(Key::Enter)]);
    assert_eq!(out, Outcome::Confirmed);
    assert_eq!(out.exit_code(), Some(CONFIRM_EXIT));
    assert_eq!(CONFIRM_EXIT, 0);
    assert_eq!(s.selected_paths(), vec!["a.txt".to_string(), "b.txt".to_string()]);
}

#[test]
fn end_to_end_cancel() {
    let mut s = session_of(&["a.txt", "b.txt"]);
    let out = run(&mut s, &[press(' '), press('q')]);
    assert_eq!(out, Outcome::Cancelled);
    assert_eq!(out.exit_code(), Some(CANCEL_EXIT));
    assert_eq!(CANCEL_EXIT, 130);
}

#[test]
fn moves_ask_for_reload() {
    let mut s = session_of(&["a", "b"]);
    assert_eq!(s.apply(Command::MoveDown), Outcome::Reload);
    assert_eq!(s.apply(Command::ToggleCurrent), Outcome::Continue);
    assert_eq!(s.apply(Command::SelectOnly(0)), Outcome::Reload);
    assert_eq!(s.apply(Command::SelectLast), Outcome::Reload);
    assert_eq!(s.cursor(), 1);
    assert!(s.is_selected(1));
    assert_eq!(s.selected_count(), 1);
    assert_eq!(Outcome::Continue.exit_code(), None);
}

#[test]
fn key_bindings() {
    assert_eq!(command_for(key(Key::Up)), Command::MoveUp);
    assert_eq!(command_for(press('k')), Command::MoveUp);
    assert_eq!(command_for(key(Key::Down)), Command::MoveDown);
    assert_eq!(command_for(press('j')), Command::MoveDown);
    assert_eq!(command_for(press(' ')), Command::ToggleCurrent);
    assert_eq!(command_for(press('a')), Command::SelectAll);
    assert_eq!(command_for(shifted('A')), Command::SelectAll);
    assert_eq!(command_for(press('n')), Command::SelectNone);
    assert_eq!(command_for(key(Key::Enter)), Command::Confirm);
    assert_eq!(command_for(key(Key::Esc)), Command::Cancel);
    assert_eq!(command_for(press('q')), Command::Cancel);
    assert_eq!(command_for(shifted('1')), Command::SelectOnly(0));
    assert_eq!(command_for(shifted('9')), Command::SelectOnly(8));
    assert_eq!(command_for(shifted('0')), Command::SelectLast);
    assert_eq!(command_for(press('1')), Command::Nothing);
    assert_eq!(command_for(press('p')), Command::TogglePreview);
    assert_eq!(command_for(press('z')), Command::Nothing);
    assert_eq!(command_for(key(Key::Other)), Command::Nothing);
}

#[test]
fn toggle_preview_flips() {
    let mut s = session_of(&["a"]);
    s.toggle_preview();
    assert!(!s.show_preview());
    s.toggle_preview();
    assert!(s.show_preview());
}

#[test]
fn display_lines_and_title() {
    let mut s = session_of(&["a.txt", ".b"]);
    s.toggle_current();
    assert_eq!(s.line(0), " [\u{2713}] a.txt");
    assert_eq!(s.line(1), " [ ] .b");
    assert_eq!(s.preview_title(), "Preview: a.txt");
    assert!(!s.entry(0).dimmed());
    assert!(s.entry(1).dimmed());
}

#[test]
fn load_preview_sets_text() {
    let mut s = session_of(&["a"]);
    s.load_preview(Ok("abc".to_string()));
    assert_eq!(s.preview(), "abc");
    s.load_preview(Err("denied".to_string()));
    assert_eq!(s.preview(), "Error reading file: denied");
}

#[test]
fn output_lines_relative() {
    let mut s = Session::new(vec![
        Entry::new("a.txt".to_string(), "./a.txt".to_string(), false),
        Entry::new("b.txt".to_string(), "/tmp/b.txt".to_string(), false),
    ]);
    s.select_all();
    assert_eq!(s.output_lines(), vec!["a.txt".to_string(), "/tmp/b.txt".to_string()]);
}
