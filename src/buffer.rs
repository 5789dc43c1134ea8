//! The text buffer: a rope of characters with line-oriented queries and the
//! three edits the editor makes. Each edit returns the cursor events that
//! keep the cursor on the edited text; the buffer never touches the cursor.

use vstd::prelude::*;
use ropey::Rope;
use crate::cursor::CursorEvent;
use crate::events::AppEvent;
use crate::position::Position;
use crate::rope::{
    rope_char, rope_from_str, rope_insert_char, rope_len_chars, rope_len_lines, rope_line_len, rope_line_string,
    rope_line_to_char, rope_remove, rope_text, rope_to_string,
};
use crate::text::{
    clamp_line, lemma_line_shape, lemma_line_start_mono, lemma_visible_len, line_count, line_len,
    line_start, line_text, newline_count, visible_len,
};

verus! {

/// An edit of the buffer at a position.
#[derive(Clone, Debug, PartialEq, Eq, Structural)]
pub enum BufferEvent {
    /// Inserts a character before the one at the position.
    InsertChar { char: char, position: Position },
    /// Deletes the character before the position, or joins its line to the
    /// one above when the position is at a line's start.
    DeleteChar { position: Position },
    /// Breaks the line at the position.
    InsertNewline { position: Position },
}

/// The editable text.
#[derive(Debug)]
pub struct Buffer {
    rope: Rope,
}

/// Largest column the cursor may take on the line of `p` (the last line
/// when `p` is past it).
pub open spec fn max_col(s: Seq<char>, p: Position) -> nat {
    visible_len(s, clamp_line(s, p.line as nat))
}

/// Offset in the text of the position `p`: the line is clamped to the last
/// line, the column to the line's length (its line break included).
pub open spec fn char_index(s: Seq<char>, p: Position) -> nat {
    let l = clamp_line(s, p.line as nat);
    line_start(s, l) + if (p.col as nat) < line_len(s, l) {
        p.col as nat
    } else {
        line_len(s, l)
    }
}

/// Whether deleting at `p` joins the line of `p` to the one above.
pub open spec fn deletes_line_break(s: Seq<char>, p: Position) -> bool {
    p.col == 0 && clamp_line(s, p.line as nat) > 0
}

/// Whether deleting at `p` removes the character before `p`.
pub open spec fn deletes_char(s: Seq<char>, p: Position) -> bool {
    p.col > 0 && char_index(s, p) > 0
}

/// Column where the cursor lands after line `l` is joined to the one above:
/// the former length of the line above, less its line break.
pub open spec fn joined_col(s: Seq<char>, l: nat) -> nat {
    let prev = line_len(s, (l - 1) as nat);
    if prev == 0 {
        0
    } else {
        (prev - 1) as nat
    }
}

/// The text after the edit `e`.
pub open spec fn edited(s: Seq<char>, e: BufferEvent) -> Seq<char> {
    match e {
        BufferEvent::InsertChar { char, position } => s.insert(char_index(s, position) as int, char),
        BufferEvent::InsertNewline { position } => s.insert(char_index(s, position) as int, '\n'),
        BufferEvent::DeleteChar { position } => {
            if deletes_line_break(s, position) {
                s.remove(line_start(s, clamp_line(s, position.line as nat)) - 1)
            } else if deletes_char(s, position) {
                s.remove(char_index(s, position) - 1)
            } else {
                s
            }
        },
    }
}

/// The cursor events that follow the edit `e`.
pub open spec fn follow_ups(s: Seq<char>, e: BufferEvent) -> Seq<AppEvent> {
    match e {
        BufferEvent::InsertChar { .. } => seq![AppEvent::Cursor(CursorEvent::MoveRight)],
        BufferEvent::InsertNewline { .. } => seq![
            AppEvent::Cursor(CursorEvent::MoveDown),
            AppEvent::Cursor(CursorEvent::MoveToLineStart),
        ],
        BufferEvent::DeleteChar { position } => {
            let l = clamp_line(s, position.line as nat);
            if deletes_line_break(s, position) {
                seq![
                    AppEvent::Cursor(CursorEvent::SetLinePosition((l - 1) as usize)),
                    AppEvent::Cursor(CursorEvent::SetColPosition(joined_col(s, l) as usize)),
                ]
            } else if deletes_char(s, position) {
                seq![AppEvent::Cursor(CursorEvent::MoveLeft)]
            } else {
                seq![]
            }
        },
    }
}

impl View for Buffer {
    type V = Seq<char>;

    closed spec fn view(&self) -> Seq<char> {
        rope_text(self.rope)
    }
}

impl Default for Buffer {
    fn default() -> (r: Buffer)
        ensures
            r@ == Seq::<char>::empty(),
    {
        Buffer::new(String::new())
    }
}

impl Buffer {
    /// Creates a buffer holding `initial_text`.
    pub fn new(initial_text: String) -> (r: Buffer)
        ensures
            r@ == initial_text@,
    {
        Buffer { rope: rope_from_str(initial_text.as_str()) }
    }

    /// Applies an edit and returns the cursor events that follow it.
    pub fn handle_event(&mut self, event: BufferEvent) -> (r: Vec<AppEvent>)
        requires
            !(event is DeleteChar) ==> old(self)@.len() < usize::MAX,
        ensures
            final(self)@ == edited(old(self)@, event),
            r@ == follow_ups(old(self)@, event),
    {
        match event {
            BufferEvent::InsertChar { char, position } => self.insert_char(char, position),
            BufferEvent::DeleteChar { position } => self.delete_char(position),
            BufferEvent::InsertNewline { position } => self.insert_new_line(position),
        }
    }

    /// Number of lines: one more than the line breaks, so at least one.
    pub fn len_lines(&self) -> (n: usize)
        ensures
            n == line_count(self@),
    {
        rope_len_lines(&self.rope)
    }

    /// Number of characters.
    pub fn len_chars(&self) -> (n: usize)
        ensures
            n == self@.len(),
    {
        rope_len_chars(&self.rope)
    }

    /// The column of `position`, clamped to the largest column of its line.
    pub fn clamp_col_position(&self, position: &Position) -> (c: usize)
        ensures
            c <= max_col(self@, *position),
            c == if (position.col as nat) < max_col(self@, *position) {
                position.col as nat
            } else {
                max_col(self@, *position)
            },
    {
        let max = self.max_visible_col(position);
        if position.col < max {
            position.col
        } else {
            max
        }
    }

    /// Largest column the cursor may take on the line of `position`: the
    /// line's length, less one when it ends in a line break. A line index
    /// past the last line reads the last line.
    pub fn max_visible_col(&self, position: &Position) -> (c: usize)
        ensures
            c == max_col(self@, *position),
    {
        let line = self.clamped_line(position.line);
        let len = rope_line_len(&self.rope, line);
        if len == 0 {
            return 0;
        }
        let start = rope_line_to_char(&self.rope, line);
        let _ = self.len_chars();
        proof {
            lemma_line_start_mono(self@, line as nat, line as nat + 1);
        }
        let last = rope_char(&self.rope, start + (len - 1));
        if last == '\n' {
            len - 1
        } else {
            len
        }
    }

    /// The lines of the text, each with its line break.
    pub fn lines(&self) -> (r: Vec<String>)
        ensures
            r@.len() == line_count(self@),
            forall|i: int| 0 <= i < r@.len() ==> #[trigger] r@[i]@ == line_text(self@, i as nat),
    {
        let n = rope_len_lines(&self.rope);
        let mut r: Vec<String> = Vec::new();
        let mut i: usize = 0;
        while i < n
            invariant
                n == line_count(self@),
                i <= n,
                r@.len() == i,
                forall|j: int| 0 <= j < i ==> #[trigger] r@[j]@ == line_text(self@, j as nat),
            decreases n - i,
        {
            r.push(rope_line_string(&self.rope, i));
            i = i + 1;
        }
        r
    }

    /// The whole text.
    pub fn text(&self) -> (t: String)
        ensures
            t@ == self@,
    {
        rope_to_string(&self.rope)
    }

    /// The rope that holds the text.
    pub fn as_rope(&self) -> (r: &Rope)
        ensures
            rope_text(*r) == self@,
    {
        &self.rope
    }

    /// `line`, or the last line when `line` is past it.
    fn clamped_line(&self, line: usize) -> (l: usize)
        ensures
            l == clamp_line(self@, line as nat),
            l < line_count(self@),
    {
        let n = rope_len_lines(&self.rope);
        if line < n {
            line
        } else {
            n - 1
        }
    }

    /// Offset in the text of `position` (see [`char_index`]).
    pub fn calculate_char_index(&self, position: Position) -> (i: usize)
        ensures
            i == char_index(self@, position),
            i <= self@.len(),
    {
        let line = self.clamped_line(position.line);
        let line_start = rope_line_to_char(&self.rope, line);
        let line_len = rope_line_len(&self.rope, line);
        let _ = self.len_chars();
        proof {
            lemma_line_start_mono(self@, line as nat, line as nat + 1);
        }
        let clamped_col = if position.col < line_len {
            position.col
        } else {
            line_len
        };
        line_start + clamped_col
    }

    /// Inserts `char` at `position` and asks the cursor to move right.
    fn insert_char(&mut self, char: char, position: Position) -> (r: Vec<AppEvent>)
        requires
            old(self)@.len() < usize::MAX,
        ensures
            final(self)@ == edited(old(self)@, BufferEvent::InsertChar { char, position }),
            r@ == follow_ups(old(self)@, BufferEvent::InsertChar { char, position }),
    {
        let char_index = self.calculate_char_index(position);
        rope_insert_char(&mut self.rope, char_index, char);
        let r = vec![AppEvent::Cursor(CursorEvent::MoveRight)];
        assert(r@ =~= follow_ups(old(self)@, BufferEvent::InsertChar { char, position }));
        r
    }

    /// Deletes before `position`: the character before it, or the line
    /// break above it when it starts a line.
    fn delete_char(&mut self, position: Position) -> (r: Vec<AppEvent>)
        ensures
            final(self)@ == edited(old(self)@, BufferEvent::DeleteChar { position }),
            r@ == follow_ups(old(self)@, BufferEvent::DeleteChar { position }),
    {
        let ghost s = self@;
        let line = self.clamped_line(position.line);
        let mut events: Vec<AppEvent> = Vec::new();
        if position.col == 0 && line > 0 {
            self.merge_with_line_above(line, &mut events);
        } else if position.col > 0 {
            let char_index = self.calculate_char_index(position);
            if char_index > 0 {
                rope_remove(&mut self.rope, char_index - 1, char_index);
                assert(self@ =~= s.remove(char_index - 1));
                events.push(AppEvent::Cursor(CursorEvent::MoveLeft));
            }
        }
        assert(events@ =~= follow_ups(s, BufferEvent::DeleteChar { position }));
        events
    }

    /// Joins `line` to the line above by removing the line break between
    /// them, and asks the cursor to go where the two now meet.
    fn merge_with_line_above(&mut self, line: usize, events: &mut Vec<AppEvent>)
        requires
            0 < line < line_count(old(self)@),
        ensures
            final(self)@ == old(self)@.remove(line_start(old(self)@, line as nat) - 1),
            final(events)@ == old(events)@ + seq![
                AppEvent::Cursor(CursorEvent::SetLinePosition((line - 1) as usize)),
                AppEvent::Cursor(CursorEvent::SetColPosition(joined_col(old(self)@, line as nat) as usize)),
            ],
    {
        let ghost s = self@;
        let prev_line_len = rope_line_len(&self.rope, line - 1);
        let char_index = rope_line_to_char(&self.rope, line);
        proof {
            lemma_line_shape(s, (line - 1) as nat);
        }
        rope_remove(&mut self.rope, char_index - 1, char_index);
        assert(self@ =~= s.remove(char_index - 1));
        let col_pos = if prev_line_len == 0 {
            0
        } else {
            prev_line_len - 1
        };
        events.push(AppEvent::Cursor(CursorEvent::SetLinePosition(line - 1)));
        events.push(AppEvent::Cursor(CursorEvent::SetColPosition(col_pos)));
    }

    /// Breaks the line at `position`, and asks the cursor to go to the start
    /// of the new line.
    fn insert_new_line(&mut self, position: Position) -> (r: Vec<AppEvent>)
        requires
            old(self)@.len() < usize::MAX,
        ensures
            final(self)@ == edited(old(self)@, BufferEvent::InsertNewline { position }),
            r@ == follow_ups(old(self)@, BufferEvent::InsertNewline { position }),
    {
        let char_index = self.calculate_char_index(position);
        rope_insert_char(&mut self.rope, char_index, '\n');
        let mut events: Vec<AppEvent> = Vec::new();
        events.push(AppEvent::Cursor(CursorEvent::MoveDown));
        events.push(AppEvent::Cursor(CursorEvent::MoveToLineStart));
        assert(events@ =~= follow_ups(old(self)@, BufferEvent::InsertNewline { position }));
        events
    }
}

} // verus!
