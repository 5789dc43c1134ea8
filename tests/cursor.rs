use zack::buffer::Buffer;
use zack::cursor::{Cursor, CursorEvent, ScreenArea};
use zack::position::Position;

fn buffer_with_lines(lines: &[&str]) -> Buffer {
    let joined = lines.join("\n");
    Buffer::new(joined)
}

#[test]
fn should_move_right_until_end_of_line() {
    let buffer = buffer_with_lines(&["abc"]);
    let mut cursor = Cursor::new();

    cursor.handle_event(CursorEvent::MoveRight, &buffer);
    assert_eq!(cursor.position.col, 1);

    cursor.handle_event(CursorEvent::MoveRight, &buffer);
    assert_eq!(cursor.position.col, 2);

    cursor.handle_event(CursorEvent::MoveRight, &buffer);
    assert_eq!(cursor.position.col, 3);

    cursor.handle_event(CursorEvent::MoveRight, &buffer);
    assert_eq!(cursor.position.col, 3, "Should not move past end of line");
}

#[test]
fn should_move_left_and_stop_at_start() {
    let buffer = buffer_with_lines(&["abc"]);
    let mut cursor = Cursor::new();
    cursor.position.col = 2;

    cursor.handle_event(CursorEvent::MoveLeft, &buffer);
    assert_eq!(cursor.position.col, 1);

    cursor.handle_event(CursorEvent::MoveLeft, &buffer);
    assert_eq!(cursor.position.col, 0);

    cursor.handle_event(CursorEvent::MoveLeft, &buffer);
    assert_eq!(cursor.position.col, 0, "Should not go below column 0");
}

#[test]
fn should_move_down_and_up_across_lines_and_clamp_column() {
    let buffer = buffer_with_lines(&["abc", "d", "efg"]);
    let mut cursor = Cursor::new();
    cursor.position.col = 2;

    cursor.handle_event(CursorEvent::MoveDown, &buffer);
    assert_eq!(cursor.position.line, 1);
    assert_eq!(cursor.position.col, 1, "Should clamp to line 1's max col");

    cursor.handle_event(CursorEvent::MoveDown, &buffer);
    assert_eq!(cursor.position.line, 2);
    assert_eq!(cursor.position.col, 1);

    cursor.handle_event(CursorEvent::MoveUp, &buffer);
    assert_eq!(cursor.position.line, 1);
    assert_eq!(cursor.position.col, 1);

    cursor.handle_event(CursorEvent::MoveUp, &buffer);
    assert_eq!(cursor.position.line, 0);
    assert_eq!(cursor.position.col, 1);
}

#[test]
fn should_move_to_line_start_and_end() {
    let buffer = buffer_with_lines(&["abcd"]);
    let mut cursor = Cursor::new();
    cursor.position.col = 2;

    cursor.handle_event(CursorEvent::MoveToLineStart, &buffer);
    assert_eq!(cursor.position.col, 0);

    cursor.handle_event(CursorEvent::MoveToLineEnd, &buffer);
    assert_eq!(cursor.position.col, 4);
}

#[test]
fn should_set_position_within_bounds_and_clamp_if_needed() {
    let buffer = buffer_with_lines(&["123", "4567"]);
    let mut cursor = Cursor::new();

    cursor.handle_event(CursorEvent::SetPosition { line: 5, col: 99 }, &buffer);
    assert_eq!(cursor.position.line, 1);
    assert_eq!(cursor.position.col, 4);
}

#[test]
fn move_up_on_first_line_and_down_on_last_line_stay() {
    let buffer = buffer_with_lines(&["ab", "cd"]);
    let mut cursor = Cursor::new();
    cursor.position = Position::new(0, 1);
    cursor.handle_event(CursorEvent::MoveUp, &buffer);
    assert_eq!(cursor.position, Position::new(0, 1));
    cursor.position = Position::new(1, 2);
    cursor.handle_event(CursorEvent::MoveDown, &buffer);
    assert_eq!(cursor.position, Position::new(1, 2));
}

#[test]
fn set_line_and_col_positions_clamp() {
    let buffer = buffer_with_lines(&["abcdef", "xy"]);
    let mut cursor = Cursor::new();
    cursor.position = Position::new(0, 5);
    cursor.handle_event(CursorEvent::SetLinePosition(7), &buffer);
    assert_eq!(cursor.position, Position::new(1, 2));
    cursor.handle_event(CursorEvent::SetColPosition(1), &buffer);
    assert_eq!(cursor.position, Position::new(1, 1));
    cursor.handle_event(CursorEvent::SetColPosition(50), &buffer);
    assert_eq!(cursor.position, Position::new(1, 2));
}

#[test]
fn stale_cursor_is_brought_inside_shrunken_text() {
    let buffer = buffer_with_lines(&["abc"]);
    let mut cursor = Cursor::new();
    cursor.position = Position::new(4, 10);
    let events = cursor.handle_event(CursorEvent::MoveToLineStart, &buffer);
    assert!(events.is_empty());
    assert_eq!(cursor.position, Position::new(0, 0));
    cursor.position = Position::new(4, 10);
    cursor.handle_event(CursorEvent::MoveLeft, &buffer);
    assert_eq!(cursor.position, Position::new(0, 3));
    cursor.position = Position::new(4, 10);
    cursor.clamp_to(&buffer);
    assert_eq!(cursor.position, Position::new(0, 3));
}

#[test]
fn every_movement_leaves_a_valid_position() {
    let buffer = buffer_with_lines(&["abc", "", "de"]);
    let events = [
        CursorEvent::MoveLeft,
        CursorEvent::MoveRight,
        CursorEvent::MoveUp,
        CursorEvent::MoveDown,
        CursorEvent::MoveToLineStart,
        CursorEvent::MoveToLineEnd,
        CursorEvent::SetPosition { line: 9, col: 9 },
        CursorEvent::SetLinePosition(1),
        CursorEvent::SetColPosition(8),
    ];
    for start in [Position::new(0, 0), Position::new(0, 3), Position::new(2, 2), Position::new(7, 7)] {
        for event in events.iter() {
            let mut cursor = Cursor::new();
            cursor.position = start;
            cursor.handle_event(event.clone(), &buffer);
            assert!(cursor.position.line < buffer.len_lines());
            assert!(cursor.position.col <= buffer.max_visible_col(&cursor.position));
        }
    }
}

#[test]
fn move_left_and_line_start_without_buffer() {
    let mut cursor = Cursor::new();
    cursor.position = Position::new(3, 1);
    cursor.move_left();
    assert_eq!(cursor.position, Position::new(3, 0));
    cursor.move_left();
    assert_eq!(cursor.position, Position::new(3, 0));
    cursor.position.col = 6;
    cursor.move_to_line_start();
    assert_eq!(cursor.position, Position::new(3, 0));
}

#[test]
fn screen_position_is_inset_and_clamped() {
    let mut cursor = Cursor::new();
    let area = ScreenArea { x: 2, y: 3, width: 10, height: 5 };
    cursor.position = Position::new(1, 4);
    assert_eq!(cursor.calculate_cursor_position(area), (7, 5));
    cursor.position = Position::new(40, 40);
    assert_eq!(cursor.calculate_cursor_position(area), (10, 6));
    let tiny = ScreenArea { x: 0, y: 0, width: 1, height: 0 };
    assert_eq!(cursor.calculate_cursor_position(tiny), (1, 1));
}
