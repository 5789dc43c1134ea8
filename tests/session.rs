use std::collections::VecDeque;
use zack::buffer::BufferEvent;
use zack::cursor::CursorEvent;
use zack::events::{AppEvent, FocusableComponent};
use zack::file::FileEvent;
use zack::modes::{EditorMode, Key, KeyCode};
use zack::position::Position;
use zack::session::App;

/// Applies `first` and every follow-up event in queue order; returns the
/// paths the editor asked to write.
fn run(app: &mut App, first: Vec<AppEvent>) -> Vec<String> {
    let mut queue: VecDeque<AppEvent> = first.into_iter().collect();
    let mut writes = Vec::new();
    while let Some(event) = queue.pop_front() {
        let reaction = app.handle_app_event(event);
        if let Some(path) = reaction.write_to {
            writes.push(path);
        }
        queue.extend(reaction.follow_ups);
    }
    writes
}

fn press(app: &mut App, code: KeyCode) -> Vec<String> {
    let events = app.handle_key(Key::new(code));
    run(app, events)
}

#[test]
fn inserting_a_char_updates_text_and_moves_cursor_right() {
    let mut app = App::new(String::from("Hello, Zack!"), None);
    run(
        &mut app,
        vec![AppEvent::Buffer(BufferEvent::InsertChar { char: 'x', position: Position::new(0, 0) })],
    );
    assert_eq!(app.buffer.text(), "xHello, Zack!");
    assert_eq!(app.cursor.position, Position::new(0, 1));
}

#[test]
fn inserting_a_newline_splits_the_line_and_moves_to_next_line_start() {
    let mut app = App::new(String::from("Hello, Zack!"), None);
    app.cursor.position = Position::new(0, 5);
    run(&mut app, vec![AppEvent::Buffer(BufferEvent::InsertNewline { position: Position::new(0, 5) })]);
    let lines = app.buffer.lines();
    assert_eq!(lines[0], "Hello\n");
    assert!(lines[1].starts_with(", Zack!"));
    assert_eq!(app.cursor.position, Position::new(1, 0));
}

#[test]
fn deleting_at_line_start_merges_and_sets_cursor() {
    let mut app = App::new(String::from("Hello\nWorld"), None);
    app.cursor.position = Position::new(1, 0);
    run(&mut app, vec![AppEvent::Buffer(BufferEvent::DeleteChar { position: Position::new(1, 0) })]);
    assert_eq!(app.buffer.text(), "HelloWorld");
    assert_eq!(app.cursor.position, Position::new(0, 5));
}

#[test]
fn merging_last_line_into_empty_line_puts_cursor_at_column_zero() {
    let mut app = App::new(String::from("ab\n\n"), None);
    app.cursor.position = Position::new(2, 0);
    run(&mut app, vec![AppEvent::Buffer(BufferEvent::DeleteChar { position: Position::new(2, 0) })]);
    assert_eq!(app.buffer.text(), "ab\n");
    assert_eq!(app.cursor.position, Position::new(1, 0));
}

#[test]
fn vertical_moves_clamp_column_without_restoring_it() {
    let mut app = App::new(String::from("abc\nd\nefg"), None);
    app.cursor.position = Position::new(0, 2);
    run(&mut app, vec![AppEvent::Cursor(CursorEvent::MoveDown)]);
    assert_eq!(app.cursor.position, Position::new(1, 1));
    run(&mut app, vec![AppEvent::Cursor(CursorEvent::MoveDown)]);
    assert_eq!(app.cursor.position, Position::new(2, 1));
    run(&mut app, vec![AppEvent::Cursor(CursorEvent::MoveUp), AppEvent::Cursor(CursorEvent::MoveUp)]);
    assert_eq!(app.cursor.position, Position::new(0, 1));
}

#[test]
fn typing_in_insert_mode_and_escaping() {
    let mut app = App::new(String::from("ac"), None);
    assert_eq!(app.mode, EditorMode::Normal);
    press(&mut app, KeyCode::Char('a'));
    assert_eq!(app.mode, EditorMode::Insert { append: true });
    assert_eq!(app.cursor.position, Position::new(0, 1));
    press(&mut app, KeyCode::Char('b'));
    assert_eq!(app.buffer.text(), "abc");
    assert_eq!(app.cursor.position, Position::new(0, 2));
    press(&mut app, KeyCode::Backspace);
    assert_eq!(app.buffer.text(), "ac");
    assert_eq!(app.cursor.position, Position::new(0, 1));
    press(&mut app, KeyCode::Enter);
    assert_eq!(app.buffer.text(), "a\nc");
    assert_eq!(app.cursor.position, Position::new(1, 0));
    press(&mut app, KeyCode::Esc);
    assert_eq!(app.mode, EditorMode::Normal);
    assert_eq!(app.cursor.position, Position::new(1, 0));
    assert!(app.running);
    press(&mut app, KeyCode::Char('q'));
    assert!(!app.running);
}

#[test]
fn saving_without_path_goes_through_the_prompt() {
    let mut app = App::new(String::from("text"), None);
    let writes = run(&mut app, vec![AppEvent::File(FileEvent::Save)]);
    assert!(writes.is_empty());
    assert_eq!(app.focus, FocusableComponent::FilenamePrompt);
    press(&mut app, KeyCode::Char('f'));
    press(&mut app, KeyCode::Char('.'));
    assert_eq!(app.filename_prompt.input, "f.");
    assert_eq!(app.buffer.text(), "text");
    let writes = press(&mut app, KeyCode::Enter);
    assert_eq!(writes, vec![String::from("f.")]);
    assert_eq!(app.file.path, Some(String::from("f.")));
    assert_eq!(app.focus, FocusableComponent::Editor);
    assert_eq!(app.filename_prompt.input, "");
}

#[test]
fn saving_with_a_known_path_asks_for_a_write() {
    let mut app = App::new(String::from("x"), Some(String::from("a.txt")));
    let reaction = app.handle_app_event(AppEvent::File(FileEvent::Save));
    assert_eq!(reaction.write_to, Some(String::from("a.txt")));
    assert!(reaction.follow_ups.is_empty());
}

#[test]
fn mode_focus_and_quit_events() {
    let mut app = App::new(String::new(), None);
    run(&mut app, vec![AppEvent::ChangeToMode(EditorMode::Visual)]);
    assert_eq!(app.mode, EditorMode::Visual);
    app.change_mode(EditorMode::Normal);
    assert_eq!(app.mode, EditorMode::Normal);
    run(&mut app, vec![AppEvent::ChangeFocus(FocusableComponent::FilenamePrompt)]);
    assert_eq!(app.focus, FocusableComponent::FilenamePrompt);
    app.tick();
    run(&mut app, vec![AppEvent::Quit]);
    assert!(!app.running);
    let mut other = App::new(String::new(), None);
    other.quit();
    assert!(!other.running);
}

#[test]
fn backspace_at_end_of_line_moves_cursor_one_column_left() {
    let mut app = App::new(String::from("ab"), None);
    app.mode = EditorMode::Insert { append: false };
    app.cursor.position = Position::new(0, 2);
    press(&mut app, KeyCode::Backspace);
    assert_eq!(app.buffer.text(), "a");
    assert_eq!(app.cursor.position, Position::new(0, 1));
}

#[test]
fn typing_then_backspace_then_typing_at_end_of_line() {
    let mut app = App::new(String::new(), None);
    press(&mut app, KeyCode::Char('i'));
    for c in ['a', 'b', 'c'] {
        press(&mut app, KeyCode::Char(c));
    }
    assert_eq!(app.cursor.position, Position::new(0, 3));
    press(&mut app, KeyCode::Backspace);
    assert_eq!(app.buffer.text(), "ab");
    assert_eq!(app.cursor.position, Position::new(0, 2));
    press(&mut app, KeyCode::Char('x'));
    assert_eq!(app.buffer.text(), "abx");
    assert_eq!(app.cursor.position, Position::new(0, 3));
}

#[test]
fn backspace_at_end_of_second_line() {
    let mut app = App::new(String::from("ab
cde"), None);
    app.mode = EditorMode::Insert { append: false };
    app.cursor.position = Position::new(1, 3);
    press(&mut app, KeyCode::Backspace);
    assert_eq!(app.buffer.text(), "ab
cd");
    assert_eq!(app.cursor.position, Position::new(1, 2));
}
