use test_gpu::input::{CursorChange, InputState, KeyEvent, KeyState};

fn press(code: u32) -> KeyEvent {
    KeyEvent { code: Some(code), state: KeyState::Pressed }
}

fn release(code: u32) -> KeyEvent {
    KeyEvent { code: Some(code), state: KeyState::Released }
}

#[test]
fn new_state_holds_no_key() {
    let s: InputState<(f64, f64)> = InputState::new();
    assert!(!s.is_key_pressed(0));
    assert!(s.cursor_change().is_none());
}

#[test]
fn press_then_release() {
    let mut s: InputState<(f64, f64)> = InputState::new();
    s.update_key(&press(17));
    assert!(s.is_key_pressed(17));
    assert!(!s.is_key_pressed(18));
    s.update_key(&release(17));
    assert!(!s.is_key_pressed(17));
}

#[test]
fn pressing_twice_needs_one_release() {
    let mut s: InputState<(f64, f64)> = InputState::new();
    s.update_key(&press(5));
    s.update_key(&press(5));
    assert!(s.is_key_pressed(5));
    s.update_key(&release(5));
    assert!(!s.is_key_pressed(5));
}

#[test]
fn releasing_unpressed_key_changes_nothing() {
    let mut s: InputState<(f64, f64)> = InputState::new();
    s.update_key(&press(1));
    s.update_key(&release(2));
    assert!(s.is_key_pressed(1));
    assert!(!s.is_key_pressed(2));
}

#[test]
fn unidentified_key_is_ignored() {
    let mut s: InputState<(f64, f64)> = InputState::default();
    s.update_key(&KeyEvent { code: None, state: KeyState::Pressed });
    assert!(!s.is_key_pressed(0));
}

#[test]
fn first_cursor_position_gives_no_change() {
    let mut s: InputState<(f64, f64)> = InputState::new();
    s.update_cursor((0.0, 0.0));
    assert!(s.cursor_change().is_none());
}

#[test]
fn second_cursor_position_gives_change() {
    let mut s: InputState<(f64, f64)> = InputState::new();
    s.update_cursor((0.0, 0.0));
    s.update_cursor((10.0, 10.0));
    let change = s.cursor_change().unwrap();
    assert_eq!(change, CursorChange { from: (0.0, 0.0), to: (10.0, 10.0) });
    assert_eq!((change.to.0 - change.from.0, change.to.1 - change.from.1), (10.0, 10.0));
}

#[test]
fn cursor_change_stays_until_next_move() {
    let mut s: InputState<(i32, i32)> = InputState::new();
    s.update_cursor((3, 4));
    s.update_cursor((5, 1));
    assert_eq!(s.cursor_change(), Some(CursorChange { from: (3, 4), to: (5, 1) }));
    assert_eq!(s.cursor_change(), Some(CursorChange { from: (3, 4), to: (5, 1) }));
    s.update_cursor((6, 1));
    assert_eq!(s.cursor_change(), Some(CursorChange { from: (5, 1), to: (6, 1) }));
}

#[test]
fn taking_cursor_change_clears_it() {
    let mut s: InputState<(i32, i32)> = InputState::new();
    s.update_cursor((0, 0));
    s.update_cursor((10, 10));
    assert_eq!(s.take_cursor_change(), Some(CursorChange { from: (0, 0), to: (10, 10) }));
    assert_eq!(s.take_cursor_change(), None);
    s.update_cursor((12, 9));
    assert_eq!(s.cursor_change(), Some(CursorChange { from: (10, 10), to: (12, 9) }));
}
