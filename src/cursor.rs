//! The cursor: a position that every operation keeps inside the buffer's
//! current text, whatever edits happened since it last moved.

use vstd::prelude::*;
use crate::buffer::{max_col, Buffer};
use crate::events::AppEvent;
use crate::position::Position;
use crate::text::{clamp_line, line_count, visible_len};

verus! {

/// A movement or placement of the cursor.
#[derive(Clone, Debug, PartialEq, Eq, Structural)]
pub enum CursorEvent {
    MoveLeft,
    MoveRight,
    MoveUp,
    MoveDown,
    MoveToLineStart,
    MoveToLineEnd,
    SetPosition { line: usize, col: usize },
    SetLinePosition(usize),
    SetColPosition(usize),
}

/// The text cursor.
#[derive(Debug)]
pub struct Cursor {
    /// Where the cursor stands.
    pub position: Position,
}

/// A rectangle of the terminal, in cells.
#[derive(Debug, Clone, Copy, PartialEq, Eq, Structural)]
pub struct ScreenArea {
    pub x: u16,
    pub y: u16,
    pub width: u16,
    pub height: u16,
}

/// `a - b`, or 0 when `b` is larger.
pub open spec fn sat_sub(a: int, b: int) -> int {
    if a > b {
        a - b
    } else {
        0
    }
}

/// `v` clamped to at most `max`.
pub open spec fn at_most(v: int, max: int) -> int {
    if v < max {
        v
    } else {
        max
    }
}

/// Whether `p` names a line of `s` and a column the cursor may take on it.
pub open spec fn is_valid(s: Seq<char>, p: Position) -> bool {
    (p.line as nat) < line_count(s) && (p.col as nat) <= visible_len(s, p.line as nat)
}

/// `p` brought inside `s`: its line clamped to the last line, then its
/// column to that line's largest column.
pub open spec fn clamped(s: Seq<char>, p: Position) -> Position {
    let l = clamp_line(s, p.line as nat);
    Position {
        line: l as usize,
        col: if (p.col as nat) < visible_len(s, l) {
            p.col
        } else {
            visible_len(s, l) as usize
        },
    }
}

/// `p` moved to line `line`, its column clamped to that line.
pub open spec fn with_line(s: Seq<char>, p: Position, line: nat) -> Position {
    Position {
        line: line as usize,
        col: if (p.col as nat) < visible_len(s, clamp_line(s, line)) {
            p.col
        } else {
            visible_len(s, clamp_line(s, line)) as usize
        },
    }
}

/// `p` moved to line `line`, clamped to the last line, its column clamped
/// to that line.
pub open spec fn set_line(s: Seq<char>, p: Position, line: usize) -> Position {
    with_line(s, p, clamp_line(s, line as nat))
}

/// `p` moved to column `col` of its line, clamped to the line's largest
/// column.
pub open spec fn set_col(s: Seq<char>, p: Position, col: usize) -> Position {
    Position {
        line: p.line,
        col: if (col as nat) < max_col(s, p) {
            col
        } else {
            max_col(s, p) as usize
        },
    }
}

/// Where the movement `e` takes the cursor from `p` on the text `s`.
pub open spec fn step(s: Seq<char>, p: Position, e: CursorEvent) -> Position {
    match e {
        CursorEvent::MoveLeft => if p.col > 0 {
            Position { line: p.line, col: (p.col - 1) as usize }
        } else {
            p
        },
        CursorEvent::MoveRight => if (p.col as nat) < max_col(s, p) {
            Position { line: p.line, col: (p.col + 1) as usize }
        } else {
            p
        },
        CursorEvent::MoveUp => if p.line > 0 {
            with_line(s, p, (p.line - 1) as nat)
        } else {
            p
        },
        CursorEvent::MoveDown => if p.line + 1 < line_count(s) {
            with_line(s, p, (p.line + 1) as nat)
        } else {
            p
        },
        CursorEvent::MoveToLineStart => Position { line: p.line, col: 0 },
        CursorEvent::MoveToLineEnd => Position { line: p.line, col: max_col(s, p) as usize },
        CursorEvent::SetPosition { line, col } => set_col(s, set_line(s, p, line), col),
        CursorEvent::SetLinePosition(line) => set_line(s, p, line),
        CursorEvent::SetColPosition(col) => set_col(s, p, col),
    }
}

/// Where the event `e` takes the cursor from `p`: the position is moved by
/// one unit (or placed), then the result is brought inside the current text.
pub open spec fn moved(s: Seq<char>, p: Position, e: CursorEvent) -> Position {
    clamped(s, step(s, p, e))
}

/// A position brought inside the text is valid there.
pub proof fn lemma_clamped_valid(s: Seq<char>, p: Position)
    requires
        line_count(s) <= usize::MAX,
    ensures
        is_valid(s, clamped(s, p)),
        is_valid(s, p) ==> clamped(s, p) == p,
{
}

/// Every movement from a valid position ends at a valid position.
pub proof fn lemma_step_valid(s: Seq<char>, p: Position, e: CursorEvent)
    requires
        is_valid(s, p),
        line_count(s) <= usize::MAX,
    ensures
        is_valid(s, step(s, p, e)),
{
}

impl Cursor {
    /// A cursor at the start of the buffer.
    pub fn new() -> (r: Cursor)
        ensures
            r.position == (Position { line: 0, col: 0 }),
    {
        Cursor { position: Position::new(0, 0) }
    }

    /// Applies a cursor event against the buffer's current text. The
    /// position is moved first, then brought inside the text; it is valid
    /// afterwards whatever it was before.
    pub fn handle_event(&mut self, event: CursorEvent, buffer: &Buffer) -> (r: Vec<AppEvent>)
        ensures
            final(self).position == moved(buffer@, old(self).position, event),
            is_valid(buffer@, final(self).position),
            r@.len() == 0,
    {
        match event {
            CursorEvent::MoveLeft => self.move_left(),
            CursorEvent::MoveRight => self.move_right(buffer),
            CursorEvent::MoveUp => self.move_up(buffer),
            CursorEvent::MoveDown => self.move_down(buffer),
            CursorEvent::MoveToLineStart => self.move_to_line_start(),
            CursorEvent::MoveToLineEnd => self.move_to_line_end(buffer),
            CursorEvent::SetColPosition(col) => self.set_col_position(col, buffer),
            CursorEvent::SetLinePosition(line) => self.set_line_position(line, buffer),
            CursorEvent::SetPosition { line, col } => self.set_position(line, col, buffer),
        }
        self.clamp_to(buffer);
        Vec::new()
    }

    /// Brings the position inside the buffer's current text.
    pub fn clamp_to(&mut self, buffer: &Buffer)
        ensures
            final(self).position == clamped(buffer@, old(self).position),
            is_valid(buffer@, final(self).position),
            line_count(buffer@) <= usize::MAX,
    {
        let n = buffer.len_lines();
        if self.position.line >= n {
            self.position.line = n - 1;
        }
        self.position.col = buffer.clamp_col_position(&self.position);
    }

    /// The terminal cell where the cursor is drawn inside `area`: one cell
    /// in from the border, the line and column clamped to the text area.
    pub fn calculate_cursor_position(&self, area: ScreenArea) -> (r: (u16, u16))
        requires
            area.x < u16::MAX,
            area.y < u16::MAX,
            area.x + area.width <= u16::MAX,
            area.y + area.height <= u16::MAX,
        ensures
            r.0 == area.x + 1 + at_most(
                self.position.col as int,
                sat_sub(sat_sub(area.width as int, 2), 1),
            ),
            r.1 == area.y + 1 + at_most(
                self.position.line as int,
                sat_sub(sat_sub(area.height as int, 2), 1),
            ),
    {
        let text_x = area.x + 1;
        let text_y = area.y + 1;
        let text_width = area.width.saturating_sub(2);
        let text_height = area.height.saturating_sub(2);
        let max_line = text_height.saturating_sub(1) as usize;
        let max_col = text_width.saturating_sub(1) as usize;
        let clamped_line = if self.position.line < max_line {
            self.position.line
        } else {
            max_line
        };
        let clamped_col = if self.position.col < max_col {
            self.position.col
        } else {
            max_col
        };
        (text_x + clamped_col as u16, text_y + clamped_line as u16)
    }

    /// One column left, stopping at column 0.
    pub fn move_left(&mut self)
        ensures
            final(self).position == (if old(self).position.col > 0 {
                Position { line: old(self).position.line, col: (old(self).position.col - 1) as usize }
            } else {
                old(self).position
            }),
    {
        if self.position.col > 0 {
            self.position.col -= 1;
        }
    }

    /// One column right, stopping at the line's largest column.
    pub fn move_right(&mut self, buffer: &Buffer)
        ensures
            final(self).position == step(buffer@, old(self).position, CursorEvent::MoveRight),
    {
        let max_col = buffer.max_visible_col(&self.position);
        if self.position.col < max_col {
            self.position.col += 1;
        }
    }

    /// One line up, stopping at the first line; the column is clamped to the
    /// new line.
    pub fn move_up(&mut self, buffer: &Buffer)
        ensures
            final(self).position == step(buffer@, old(self).position, CursorEvent::MoveUp),
    {
        if self.position.line > 0 {
            self.position.line -= 1;
            self.position.col = buffer.clamp_col_position(&self.position);
        }
    }

    /// One line down, stopping at the last line; the column is clamped to
    /// the new line.
    pub fn move_down(&mut self, buffer: &Buffer)
        ensures
            final(self).position == step(buffer@, old(self).position, CursorEvent::MoveDown),
    {
        let total_lines = buffer.len_lines();
        if self.position.line < total_lines - 1 {
            self.position.line += 1;
            self.position.col = buffer.clamp_col_position(&self.position);
        }
    }

    /// To column 0.
    pub fn move_to_line_start(&mut self)
        ensures
            final(self).position == (Position { line: old(self).position.line, col: 0 }),
    {
        self.position.col = 0;
    }

    /// To the line's largest column.
    pub fn move_to_line_end(&mut self, buffer: &Buffer)
        ensures
            final(self).position == step(buffer@, old(self).position, CursorEvent::MoveToLineEnd),
    {
        self.position.col = buffer.max_visible_col(&self.position);
    }

    /// To `line` and then `col`, each clamped to the text.
    pub fn set_position(&mut self, line: usize, col: usize, buffer: &Buffer)
        ensures
            final(self).position == step(
                buffer@,
                old(self).position,
                CursorEvent::SetPosition { line, col },
            ),
    {
        self.set_line_position(line, buffer);
        self.set_col_position(col, buffer);
    }

    /// To `line`, clamped to the last line; the column is clamped to it.
    pub fn set_line_position(&mut self, line: usize, buffer: &Buffer)
        ensures
            final(self).position == step(buffer@, old(self).position, CursorEvent::SetLinePosition(line)),
    {
        let total_lines = buffer.len_lines() - 1;
        self.position.line = if line < total_lines {
            line
        } else {
            total_lines
        };
        self.position.col = buffer.clamp_col_position(&self.position);
    }

    /// To `col`, clamped to the line's largest column.
    pub fn set_col_position(&mut self, col: usize, buffer: &Buffer)
        ensures
            final(self).position == step(buffer@, old(self).position, CursorEvent::SetColPosition(col)),
    {
        let max_col = buffer.max_visible_col(&self.position);
        self.position.col = if col < max_col {
            col
        } else {
            max_col
        };
    }
}

} // verus!
