//! The editing modes and how each turns a key press into events. A mode
//! never changes the buffer, the cursor or itself: it only emits events.

use vstd::prelude::*;
use crate::buffer::BufferEvent;
use crate::cursor::CursorEvent;
use crate::events::AppEvent;
use crate::position::Position;

verus! {

/// The key of a key press.
#[derive(Clone, Copy, Debug, PartialEq, Eq, Structural)]
pub enum KeyCode {
    Char(char),
    Enter,
    Esc,
    Backspace,
    Left,
    Right,
    Up,
    Down,
    Tab,
    /// Any other key.
    Other,
}

/// A key press: the key, and whether Control was held.
#[derive(Clone, Copy, Debug, PartialEq, Eq, Structural)]
pub struct Key {
    pub code: KeyCode,
    pub ctrl: bool,
}

impl Key {
    /// A key press without modifiers.
    pub fn new(code: KeyCode) -> (r: Key)
        ensures
            r == (Key { code, ctrl: false }),
    {
        Key { code, ctrl: false }
    }

    /// A key press with Control held.
    pub fn with_ctrl(code: KeyCode) -> (r: Key)
        ensures
            r == (Key { code, ctrl: true }),
    {
        Key { code, ctrl: true }
    }
}

/// The active mode. `append` records whether insert mode was entered after
/// the cursor rather than before it.
#[derive(Debug, Clone, Copy, PartialEq, Eq, Structural)]
pub enum EditorMode {
    Insert { append: bool },
    Normal,
    Visual,
}

/// Normal mode.
#[derive(Debug)]
pub struct NormalMode;

/// Insert mode.
#[derive(Debug)]
pub struct InsertMode;

/// Visual mode.
#[derive(Debug)]
pub struct VisualMode;

/// The events a key press emits in normal mode.
pub open spec fn normal_events(key: Key) -> Seq<AppEvent> {
    match key.code {
        KeyCode::Char('v') => seq![AppEvent::ChangeToMode(EditorMode::Visual)],
        KeyCode::Char('i') => seq![AppEvent::ChangeToMode(EditorMode::Insert { append: false })],
        KeyCode::Char('a') => seq![
            AppEvent::Cursor(CursorEvent::MoveRight),
            AppEvent::ChangeToMode(EditorMode::Insert { append: true }),
        ],
        KeyCode::Char('h') => seq![AppEvent::Cursor(CursorEvent::MoveLeft)],
        KeyCode::Char('l') => seq![AppEvent::Cursor(CursorEvent::MoveRight)],
        KeyCode::Char('j') => seq![AppEvent::Cursor(CursorEvent::MoveDown)],
        KeyCode::Char('k') => seq![AppEvent::Cursor(CursorEvent::MoveUp)],
        KeyCode::Char('q') => seq![AppEvent::Quit],
        KeyCode::Esc => seq![AppEvent::Quit],
        KeyCode::Char(c) => if (c == 'c' || c == 'C') && key.ctrl {
            seq![AppEvent::Quit]
        } else {
            seq![]
        },
        _ => seq![],
    }
}

/// The events a key press emits in insert mode, the cursor being at `p`.
pub open spec fn insert_events(key: Key, p: Position) -> Seq<AppEvent> {
    match key.code {
        KeyCode::Esc => seq![
            AppEvent::Cursor(CursorEvent::MoveLeft),
            AppEvent::ChangeToMode(EditorMode::Normal),
        ],
        KeyCode::Left => seq![AppEvent::Cursor(CursorEvent::MoveLeft)],
        KeyCode::Right => seq![AppEvent::Cursor(CursorEvent::MoveRight)],
        KeyCode::Up => seq![AppEvent::Cursor(CursorEvent::MoveUp)],
        KeyCode::Down => seq![AppEvent::Cursor(CursorEvent::MoveDown)],
        KeyCode::Backspace => seq![AppEvent::Buffer(BufferEvent::DeleteChar { position: p })],
        KeyCode::Char(c) => seq![AppEvent::Buffer(BufferEvent::InsertChar { char: c, position: p })],
        KeyCode::Enter => seq![AppEvent::Buffer(BufferEvent::InsertNewline { position: p })],
        _ => seq![],
    }
}

/// The events a key press emits in visual mode.
pub open spec fn visual_events(key: Key) -> Seq<AppEvent> {
    match key.code {
        KeyCode::Esc => seq![AppEvent::ChangeToMode(EditorMode::Normal)],
        _ => seq![],
    }
}

/// The events a key press emits in `mode`, the cursor being at `p`.
pub open spec fn mode_events(mode: EditorMode, key: Key, p: Position) -> Seq<AppEvent> {
    match mode {
        EditorMode::Insert { .. } => insert_events(key, p),
        EditorMode::Normal => normal_events(key),
        EditorMode::Visual => visual_events(key),
    }
}

impl NormalMode {
    pub fn get_mode_label(&self) -> (r: &'static str)
        ensures
            r@ == "normal"@,
    {
        "normal"
    }

    pub fn get_current_mode(&self) -> (r: EditorMode)
        ensures
            r == EditorMode::Normal,
    {
        EditorMode::Normal
    }

    /// `i`, `a` and `v` change the mode (`a` after moving right); `h`, `l`,
    /// `j`, `k` move; `q`, Esc and Control-C quit. Other keys do nothing.
    pub fn handle_key(&self, key: Key, current_cursor_position: Position) -> (r: Vec<AppEvent>)
        ensures
            r@ == normal_events(key),
    {
        let mut events: Vec<AppEvent> = Vec::new();
        match key.code {
            KeyCode::Char('v') => events.push(AppEvent::ChangeToMode(EditorMode::Visual)),
            KeyCode::Char('i') => events.push(
                AppEvent::ChangeToMode(EditorMode::Insert { append: false }),
            ),
            KeyCode::Char('a') => {
                events.push(AppEvent::Cursor(CursorEvent::MoveRight));
                events.push(AppEvent::ChangeToMode(EditorMode::Insert { append: true }));
            },
            KeyCode::Char('h') => events.push(AppEvent::Cursor(CursorEvent::MoveLeft)),
            KeyCode::Char('l') => events.push(AppEvent::Cursor(CursorEvent::MoveRight)),
            KeyCode::Char('j') => events.push(AppEvent::Cursor(CursorEvent::MoveDown)),
            KeyCode::Char('k') => events.push(AppEvent::Cursor(CursorEvent::MoveUp)),
            KeyCode::Char('q') | KeyCode::Esc => events.push(AppEvent::Quit),
            KeyCode::Char(c) => {
                if (c == 'c' || c == 'C') && key.ctrl {
                    events.push(AppEvent::Quit);
                }
            },
            _ => {},
        }
        assert(events@ =~= normal_events(key));
        events
    }
}

impl InsertMode {
    pub fn get_mode_label(&self) -> (r: &'static str)
        ensures
            r@ == "insert"@,
    {
        "insert"
    }

    pub fn get_current_mode(&self) -> (r: EditorMode)
        ensures
            r == (EditorMode::Insert { append: false }),
    {
        EditorMode::Insert { append: false }
    }

    /// Characters, Backspace and Enter edit the buffer at the cursor; arrows
    /// move; Esc returns to normal mode, one column to the left.
    pub fn handle_key(&self, key: Key, current_cursor_position: Position) -> (r: Vec<AppEvent>)
        ensures
            r@ == insert_events(key, current_cursor_position),
    {
        let mut events: Vec<AppEvent> = Vec::new();
        match key.code {
            KeyCode::Esc => {
                events.push(AppEvent::Cursor(CursorEvent::MoveLeft));
                events.push(AppEvent::ChangeToMode(EditorMode::Normal));
            },
            KeyCode::Left => events.push(AppEvent::Cursor(CursorEvent::MoveLeft)),
            KeyCode::Right => events.push(AppEvent::Cursor(CursorEvent::MoveRight)),
            KeyCode::Up => events.push(AppEvent::Cursor(CursorEvent::MoveUp)),
            KeyCode::Down => events.push(AppEvent::Cursor(CursorEvent::MoveDown)),
            KeyCode::Backspace => events.push(
                AppEvent::Buffer(BufferEvent::DeleteChar { position: current_cursor_position }),
            ),
            KeyCode::Char(char) => events.push(
                AppEvent::Buffer(BufferEvent::InsertChar { char, position: current_cursor_position }),
            ),
            KeyCode::Enter => events.push(
                AppEvent::Buffer(BufferEvent::InsertNewline { position: current_cursor_position }),
            ),
            _ => {},
        }
        assert(events@ =~= insert_events(key, current_cursor_position));
        events
    }
}

impl VisualMode {
    pub fn get_mode_label(&self) -> (r: &'static str)
        ensures
            r@ == "visual"@,
    {
        "visual"
    }

    pub fn get_current_mode(&self) -> (r: EditorMode)
        ensures
            r == EditorMode::Visual,
    {
        EditorMode::Visual
    }

    /// Esc returns to normal mode; other keys do nothing.
    pub fn handle_key(&self, key: Key, current_cursor_position: Position) -> (r: Vec<AppEvent>)
        ensures
            r@ == visual_events(key),
    {
        let mut events: Vec<AppEvent> = Vec::new();
        if let KeyCode::Esc = key.code {
            events.push(AppEvent::ChangeToMode(EditorMode::Normal));
        }
        assert(events@ =~= visual_events(key));
        events
    }
}

impl EditorMode {
    /// The mode's name as shown to the user.
    pub fn label(&self) -> (r: &'static str)
        ensures
            r@ == (match self {
                EditorMode::Insert { .. } => "insert"@,
                EditorMode::Normal => "normal"@,
                EditorMode::Visual => "visual"@,
            }),
    {
        match self {
            EditorMode::Insert { .. } => InsertMode.get_mode_label(),
            EditorMode::Normal => NormalMode.get_mode_label(),
            EditorMode::Visual => VisualMode.get_mode_label(),
        }
    }

    /// The events the key press emits in this mode, the cursor being at
    /// `current_cursor_position`.
    pub fn handle_key(&self, key: Key, current_cursor_position: Position) -> (r: Vec<AppEvent>)
        ensures
            r@ == mode_events(*self, key, current_cursor_position),
    {
        match self {
            EditorMode::Insert { .. } => InsertMode.handle_key(key, current_cursor_position),
            EditorMode::Normal => NormalMode.handle_key(key, current_cursor_position),
            EditorMode::Visual => VisualMode.handle_key(key, current_cursor_position),
        }
    }
}

} // verus!
