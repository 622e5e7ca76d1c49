use winterm::Event;
use winterm::KeyCode;
use winterm::Modifiers;
use winterm::Window;

fn press(code: KeyCode) -> Event {
    Event::Key { code, modifiers: Modifiers::none() }
}

#[test]
fn empty_poll_leaves_empty_buffer() {
    let mut w = Window::new(2, 2, 80, 24);
    let resized = w.poll_events(Vec::new());
    assert!(!resized);
    assert_eq!(w.last_events.len(), 0);
    assert!(!w.get_key(KeyCode::Esc));
    assert!(!w.get_key(KeyCode::Char('w')));
    assert!(!w.get_modifiers(Modifiers::none()));
}

#[test]
fn poll_replaces_previous_snapshot() {
    let mut w = Window::new(2, 2, 80, 24);
    w.poll_events(vec![press(KeyCode::Char('w'))]);
    assert!(w.get_key(KeyCode::Char('w')));
    w.poll_events(Vec::new());
    assert!(!w.get_key(KeyCode::Char('w')));
    assert_eq!(w.last_events.len(), 0);
}

#[test]
fn char_keys_match_case_insensitively() {
    let mut w = Window::new(2, 2, 80, 24);
    w.poll_events(vec![press(KeyCode::Char('w'))]);
    assert!(w.get_key(KeyCode::Char('w')));
    assert!(w.get_key(KeyCode::Char('W')));
    let mut w = Window::new(2, 2, 80, 24);
    w.poll_events(vec![press(KeyCode::Char('W'))]);
    assert!(w.get_key(KeyCode::Char('w')));
    assert!(w.get_key(KeyCode::Char('W')));
    assert!(!w.get_key(KeyCode::Char('x')));
}

#[test]
fn non_ascii_case_folding() {
    let mut w = Window::new(2, 2, 80, 24);
    w.poll_events(vec![press(KeyCode::Char('Ä'))]);
    assert!(w.get_key(KeyCode::Char('ä')));
    assert!(!w.get_key(KeyCode::Char('a')));
}

#[test]
fn other_keys_match_exactly() {
    let mut w = Window::new(2, 2, 80, 24);
    w.poll_events(vec![press(KeyCode::Esc)]);
    assert!(w.get_key(KeyCode::Esc));
    assert!(!w.get_key(KeyCode::Char('w')));
    assert!(!w.get_key(KeyCode::Enter));
    assert!(!w.get_key(KeyCode::F(1)));
}

#[test]
fn modifiers_match_exact_set() {
    let mut w = Window::new(2, 2, 80, 24);
    let shift = Modifiers { shift: true, ..Modifiers::none() };
    let shift_control = Modifiers { shift: true, control: true, ..Modifiers::none() };
    w.poll_events(vec![Event::Key { code: KeyCode::Char('a'), modifiers: shift }]);
    assert!(w.get_modifiers(shift));
    // a subset or superset of the held set is no match
    assert!(!w.get_modifiers(shift_control));
    assert!(!w.get_modifiers(Modifiers::none()));
}

#[test]
fn resize_event_updates_size_and_origin() {
    let mut w = Window::new(4, 4, 80, 24);
    let resized = w.poll_events(vec![
        press(KeyCode::Char('q')),
        Event::Resize { columns: 10, rows: 10 },
    ]);
    assert!(resized);
    assert_eq!(w.terminal_columns, 10);
    assert_eq!(w.terminal_rows, 10);
    assert_eq!(w.origin_x, 3);
    assert_eq!(w.origin_y, 4);
    // the buffered key press is still queryable
    assert!(w.get_key(KeyCode::Char('q')));
    // dimensions never change
    assert_eq!(w.width(), 4);
    assert_eq!(w.height(), 4);
}

#[test]
fn last_resize_wins() {
    let mut w = Window::new(4, 4, 80, 24);
    let resized = w.poll_events(vec![
        Event::Resize { columns: 10, rows: 10 },
        Event::Resize { columns: 60, rows: 20 },
    ]);
    assert!(resized);
    assert_eq!(w.terminal_columns, 60);
    assert_eq!(w.terminal_rows, 20);
    assert_eq!(w.origin_x, (60 - 4) / 2);
    assert_eq!(w.origin_y, (2 * 20 - 4) / 4);
}
