//! Laws that relate several operations of the buffer and the cursor.

use vstd::prelude::*;
use crate::buffer::{char_index, edited, follow_ups, joined_col, BufferEvent};
use crate::cursor::{is_valid, moved, CursorEvent};
use crate::events::AppEvent;
use crate::position::Position;
use crate::text::{
    clamp_line, is_newline, lemma_insert_keeps_line_start, lemma_insert_moves_line_start,
    lemma_insert_newline_count, lemma_line_shape, lemma_line_start_mono,
    lemma_remove_keeps_line_start, lemma_remove_newline_count, lemma_visible_len, line_count,
    lemma_remove_line_break_shifts, line_len, line_start, line_text, newline_count, visible_len,
};

verus! {

/// Inserting a character at a valid position and then deleting at the
/// column after it, where the cursor has moved, gives back the text as it
/// was.
pub proof fn lemma_insert_then_delete(s: Seq<char>, p: Position, c: char)
    requires
        is_valid(s, p),
        s.len() < usize::MAX,
    ensures
        edited(
            edited(s, BufferEvent::InsertChar { char: c, position: p }),
            BufferEvent::DeleteChar { position: Position { line: p.line, col: (p.col + 1) as usize } },
        ) == s,
{
    let l = p.line as nat;
    lemma_visible_len(s, l);
    lemma_line_shape(s, l);
    let k = char_index(s, p) as int;
    assert(k == line_start(s, l) + p.col);
    let t = s.insert(k, c);
    lemma_insert_newline_count(s, k, c);
    lemma_insert_keeps_line_start(s, k, c, l);
    lemma_insert_moves_line_start(s, k, c, l + 1);
    let q = Position { line: p.line, col: (p.col + 1) as usize };
    assert(clamp_line(t, l) == l);
    assert(char_index(t, q) == k + 1);
    assert(t.remove(k) =~= s);
}

/// Deleting at the start of a line below the first removes the line break
/// above it, joining the two lines; the cursor events that follow put the
/// cursor, wherever it was, on the line above just after its former last
/// character.
pub proof fn lemma_delete_at_line_start(s: Seq<char>, line: usize, cursor: Position)
    requires
        0 < line < line_count(s),
        s.len() <= usize::MAX,
    ensures
        ({
            let e = BufferEvent::DeleteChar { position: Position { line, col: 0 } };
            let t = edited(s, e);
            let col = joined_col(s, line as nat);
            &&& t == s.remove(line_start(s, line as nat) - 1)
            &&& line_count(t) == line_count(s) - 1
            &&& line_text(t, (line - 1) as nat) == line_text(s, (line - 1) as nat).drop_last()
                + line_text(s, line as nat)
            &&& forall|j: nat|
                j + 1 < line ==> #[trigger] line_text(t, j) == line_text(s, j)
            &&& forall|j: nat|
                line <= j < line_count(t) ==> #[trigger] line_text(t, j) == line_text(s, j + 1)
            &&& col == visible_len(s, (line - 1) as nat)
            &&& follow_ups(s, e) == seq![
                AppEvent::Cursor(CursorEvent::SetLinePosition((line - 1) as usize)),
                AppEvent::Cursor(CursorEvent::SetColPosition(col as usize)),
            ]
            &&& moved(
                t,
                moved(t, cursor, CursorEvent::SetLinePosition((line - 1) as usize)),
                CursorEvent::SetColPosition(col as usize),
            ) == (Position { line: (line - 1) as usize, col: col as usize })
        }),
{
    let i = (line - 1) as nat;
    let k = line_start(s, line as nat) - 1;
    lemma_line_shape(s, i);
    lemma_visible_len(s, i);
    assert(is_newline(s[k]));
    let t = s.remove(k);
    lemma_remove_newline_count(s, k);
    lemma_remove_keeps_line_start(s, k, i);
    lemma_visible_len(t, i);
    lemma_line_shape(t, i);
    let col = joined_col(s, line as nat);
    assert(col == k - line_start(s, i));
    if visible_len(t, i) < col {
        let m = (line_start(s, i) + visible_len(t, i)) as int;
        assert(t[m] == s[m]);
        assert(!is_newline(s[m]));
        assert(i < newline_count(t));
        assert(false);
    }
    assert(visible_len(t, i) >= col);
    assert(clamp_line(t, i) == i);
    lemma_remove_line_break_shifts(s, line as nat, line as nat);
    lemma_line_shape(s, line as nat);
    assert(line_text(t, i) =~= line_text(s, i).drop_last() + line_text(s, line as nat));
    assert forall|j: nat| j + 1 < line implies #[trigger] line_text(t, j) == line_text(s, j) by {
        lemma_line_start_mono(s, j + 1, i);
        lemma_line_start_mono(s, j, j + 1);
        assert(line_start(s, i) <= k);
        lemma_remove_keeps_line_start(s, k, j);
        lemma_remove_keeps_line_start(s, k, j + 1);
        assert(line_text(t, j) =~= line_text(s, j));
    }
    assert forall|j: nat| line <= j < line_count(t) implies #[trigger] line_text(t, j)
        == line_text(s, j + 1) by {
        lemma_remove_line_break_shifts(s, line as nat, j);
        lemma_remove_line_break_shifts(s, line as nat, j + 1);
        lemma_line_start_mono(s, line as nat, j + 1);
        lemma_line_start_mono(s, j + 1, j + 2);
        assert(line_text(t, j) =~= line_text(s, j + 1));
    }
}

/// Deleting the character before a valid position past column 0 removes
/// it, and the cursor event that follows puts the cursor on the same line,
/// one column to the left, where the deleted character stood.
pub proof fn lemma_delete_then_move_left(s: Seq<char>, p: Position)
    requires
        is_valid(s, p),
        p.col > 0,
        s.len() <= usize::MAX,
    ensures
        ({
            let e = BufferEvent::DeleteChar { position: p };
            let t = edited(s, e);
            &&& t == s.remove(line_start(s, p.line as nat) + p.col - 1)
            &&& follow_ups(s, e) == seq![AppEvent::Cursor(CursorEvent::MoveLeft)]
            &&& moved(t, p, CursorEvent::MoveLeft) == (Position {
                line: p.line,
                col: (p.col - 1) as usize,
            })
        }),
{
    let l = p.line as nat;
    lemma_visible_len(s, l);
    lemma_line_shape(s, l);
    let k = (line_start(s, l) + p.col - 1) as int;
    assert(char_index(s, p) == k + 1);
    assert(!is_newline(s[k]));
    let t = s.remove(k);
    lemma_remove_newline_count(s, k);
    lemma_remove_keeps_line_start(s, k, l);
    lemma_visible_len(t, l);
    lemma_line_shape(t, l);
    let col = (p.col - 1) as nat;
    if visible_len(t, l) < col {
        let m = (line_start(s, l) + visible_len(t, l)) as int;
        assert(t[m] == s[m]);
        assert(!is_newline(s[m]));
        assert(l < newline_count(t));
        assert(false);
    }
    assert(clamp_line(t, l) == l);
}

/// Every cursor event, from any position, leaves the cursor at a valid
/// position of the current text.
pub proof fn lemma_cursor_event_valid(s: Seq<char>, p: Position, e: CursorEvent)
    requires
        line_count(s) <= usize::MAX,
    ensures
        is_valid(s, moved(s, p, e)),
{
    crate::cursor::lemma_clamped_valid(s, crate::cursor::step(s, p, e));
}

} // verus!
