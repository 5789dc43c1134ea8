use zack::buffer::BufferEvent;
use zack::cursor::CursorEvent;
use zack::events::AppEvent;
use zack::modes::{EditorMode, InsertMode, Key, KeyCode, NormalMode, VisualMode};
use zack::position::Position;

fn key(code: KeyCode) -> Key {
    Key::new(code)
}

#[test]
fn normal_a_moves_right_then_enters_insert_after_cursor() {
    let events = NormalMode.handle_key(key(KeyCode::Char('a')), Position::new(0, 0));
    assert_eq!(
        events,
        vec![
            AppEvent::Cursor(CursorEvent::MoveRight),
            AppEvent::ChangeToMode(EditorMode::Insert { append: true }),
        ]
    );
}

#[test]
fn normal_mode_transitions_and_movements() {
    let p = Position::new(1, 1);
    let mode = EditorMode::Normal;
    assert_eq!(
        mode.handle_key(key(KeyCode::Char('i')), p),
        vec![AppEvent::ChangeToMode(EditorMode::Insert { append: false })]
    );
    assert_eq!(
        mode.handle_key(key(KeyCode::Char('v')), p),
        vec![AppEvent::ChangeToMode(EditorMode::Visual)]
    );
    assert_eq!(mode.handle_key(key(KeyCode::Char('h')), p), vec![AppEvent::Cursor(CursorEvent::MoveLeft)]);
    assert_eq!(mode.handle_key(key(KeyCode::Char('l')), p), vec![AppEvent::Cursor(CursorEvent::MoveRight)]);
    assert_eq!(mode.handle_key(key(KeyCode::Char('j')), p), vec![AppEvent::Cursor(CursorEvent::MoveDown)]);
    assert_eq!(mode.handle_key(key(KeyCode::Char('k')), p), vec![AppEvent::Cursor(CursorEvent::MoveUp)]);
    assert!(mode.handle_key(key(KeyCode::Char('x')), p).is_empty());
    assert!(mode.handle_key(key(KeyCode::Enter), p).is_empty());
}

#[test]
fn normal_mode_quits_on_q_esc_and_control_c() {
    let p = Position::new(0, 0);
    assert_eq!(NormalMode.handle_key(key(KeyCode::Char('q')), p), vec![AppEvent::Quit]);
    assert_eq!(NormalMode.handle_key(key(KeyCode::Esc), p), vec![AppEvent::Quit]);
    assert_eq!(NormalMode.handle_key(Key::with_ctrl(KeyCode::Char('c')), p), vec![AppEvent::Quit]);
    assert_eq!(NormalMode.handle_key(Key::with_ctrl(KeyCode::Char('C')), p), vec![AppEvent::Quit]);
    assert!(NormalMode.handle_key(key(KeyCode::Char('c')), p).is_empty());
}

#[test]
fn insert_mode_edits_at_the_cursor() {
    let p = Position::new(2, 4);
    assert_eq!(
        InsertMode.handle_key(key(KeyCode::Char('z')), p),
        vec![AppEvent::Buffer(BufferEvent::InsertChar { char: 'z', position: p })]
    );
    assert_eq!(
        InsertMode.handle_key(key(KeyCode::Backspace), p),
        vec![AppEvent::Buffer(BufferEvent::DeleteChar { position: p })]
    );
    assert_eq!(
        InsertMode.handle_key(key(KeyCode::Enter), p),
        vec![AppEvent::Buffer(BufferEvent::InsertNewline { position: p })]
    );
    assert_eq!(InsertMode.handle_key(key(KeyCode::Left), p), vec![AppEvent::Cursor(CursorEvent::MoveLeft)]);
    assert_eq!(InsertMode.handle_key(key(KeyCode::Right), p), vec![AppEvent::Cursor(CursorEvent::MoveRight)]);
    assert_eq!(InsertMode.handle_key(key(KeyCode::Up), p), vec![AppEvent::Cursor(CursorEvent::MoveUp)]);
    assert_eq!(InsertMode.handle_key(key(KeyCode::Down), p), vec![AppEvent::Cursor(CursorEvent::MoveDown)]);
    assert!(InsertMode.handle_key(key(KeyCode::Tab), p).is_empty());
}

#[test]
fn insert_esc_moves_left_then_returns_to_normal() {
    let events = EditorMode::Insert { append: true }.handle_key(key(KeyCode::Esc), Position::new(0, 3));
    assert_eq!(
        events,
        vec![
            AppEvent::Cursor(CursorEvent::MoveLeft),
            AppEvent::ChangeToMode(EditorMode::Normal),
        ]
    );
}

#[test]
fn visual_mode_only_leaves_on_esc() {
    let p = Position::new(0, 0);
    assert_eq!(
        VisualMode.handle_key(key(KeyCode::Esc), p),
        vec![AppEvent::ChangeToMode(EditorMode::Normal)]
    );
    assert!(VisualMode.handle_key(key(KeyCode::Char('q')), p).is_empty());
    assert!(EditorMode::Visual.handle_key(key(KeyCode::Char('i')), p).is_empty());
}

#[test]
fn mode_labels_and_kinds() {
    assert_eq!(NormalMode.get_mode_label(), "normal");
    assert_eq!(InsertMode.get_mode_label(), "insert");
    assert_eq!(VisualMode.get_mode_label(), "visual");
    assert_eq!(EditorMode::Insert { append: true }.label(), "insert");
    assert_eq!(NormalMode.get_current_mode(), EditorMode::Normal);
    assert_eq!(VisualMode.get_current_mode(), EditorMode::Visual);
    assert_eq!(InsertMode.get_current_mode(), EditorMode::Insert { append: false });
}
