//! The mathematical model of a buffer's text: a sequence of characters cut
//! into lines by `'\n'`, and the facts about line starts that the buffer and
//! cursor contracts rest on.

use vstd::prelude::*;

verus! {

/// Whether `c` ends a line.
pub open spec fn is_newline(c: char) -> bool {
    c == '\n'
}

/// Number of line breaks in `s`.
pub open spec fn newline_count(s: Seq<char>) -> nat
    decreases s.len(),
{
    if s.len() == 0 {
        0
    } else {
        (if is_newline(s[0]) { 1nat } else { 0nat }) + newline_count(s.drop_first())
    }
}

/// Number of lines in `s`: one more than its line breaks, so an empty text
/// has one (empty) line.
pub open spec fn line_count(s: Seq<char>) -> nat {
    newline_count(s) + 1
}

/// Offset of the first character of line `i`. Line `line_count(s)`, one past
/// the last, starts at the end of the text.
pub open spec fn line_start(s: Seq<char>, i: nat) -> nat
    decreases s.len(),
{
    if i == 0 {
        0
    } else if s.len() == 0 {
        0
    } else if is_newline(s[0]) {
        1 + line_start(s.drop_first(), (i - 1) as nat)
    } else {
        1 + line_start(s.drop_first(), i)
    }
}

/// Number of characters of line `i`, its line break included.
pub open spec fn line_len(s: Seq<char>, i: nat) -> nat {
    (line_start(s, i + 1) - line_start(s, i)) as nat
}

/// The characters of line `i`, its line break included.
pub open spec fn line_text(s: Seq<char>, i: nat) -> Seq<char> {
    s.subrange(line_start(s, i) as int, line_start(s, i + 1) as int)
}

/// Largest column the cursor may take on line `i`: the line's length, less
/// one when its last character is a line break.
pub open spec fn visible_len(s: Seq<char>, i: nat) -> nat {
    let len = line_len(s, i);
    if len == 0 {
        0
    } else if is_newline(s[line_start(s, i) + len - 1]) {
        (len - 1) as nat
    } else {
        len
    }
}

/// Line `i`, or the last line when `i` is past it.
pub open spec fn clamp_line(s: Seq<char>, i: nat) -> nat {
    if i < line_count(s) {
        i
    } else {
        newline_count(s)
    }
}

/// No line starts past the end of the text.
pub proof fn lemma_line_start_le_len(s: Seq<char>, i: nat)
    ensures
        line_start(s, i) <= s.len(),
    decreases s.len(),
{
    if s.len() > 0 && i > 0 {
        if is_newline(s[0]) {
            lemma_line_start_le_len(s.drop_first(), (i - 1) as nat);
        } else {
            lemma_line_start_le_len(s.drop_first(), i);
        }
    }
}

/// Line starts never decrease and never pass the end of the text.
pub proof fn lemma_line_start_mono(s: Seq<char>, i: nat, j: nat)
    requires
        i <= j,
    ensures
        line_start(s, i) <= line_start(s, j) <= s.len(),
    decreases s.len(),
{
    lemma_line_start_le_len(s, j);
    if s.len() > 0 && i > 0 {
        if is_newline(s[0]) {
            lemma_line_start_mono(s.drop_first(), (i - 1) as nat, (j - 1) as nat);
        } else {
            lemma_line_start_mono(s.drop_first(), i, j);
        }
    }
}

/// Past the last line, the line start is the end of the text.
pub proof fn lemma_line_start_past_end(s: Seq<char>, i: nat)
    requires
        i > newline_count(s),
    ensures
        line_start(s, i) == s.len(),
    decreases s.len(),
{
    if s.len() > 0 {
        if is_newline(s[0]) {
            lemma_line_start_past_end(s.drop_first(), (i - 1) as nat);
        } else {
            lemma_line_start_past_end(s.drop_first(), i);
        }
    }
}

/// A line holds no line break but, unless it is the last, the one that ends it.
pub proof fn lemma_line_shape(s: Seq<char>, i: nat)
    requires
        i <= newline_count(s),
    ensures
        line_start(s, i) <= line_start(s, i + 1) <= s.len(),
        forall|k: int|
            line_start(s, i) <= k < line_start(s, i + 1) - 1 ==> !is_newline(#[trigger] s[k]),
        i < newline_count(s) ==> line_start(s, i) < line_start(s, i + 1) && is_newline(
            s[line_start(s, i + 1) - 1],
        ),
        i == newline_count(s) ==> line_start(s, i + 1) == s.len() && (s.len() > line_start(s, i)
            ==> !is_newline(s[s.len() - 1])),
    decreases s.len(),
{
    lemma_line_start_mono(s, i, i + 1);
    if i == newline_count(s) {
        lemma_line_start_past_end(s, i + 1);
    }
    if s.len() > 0 {
        let t = s.drop_first();
        if i == 0 {
            if is_newline(s[0]) {
                assert(line_start(s, 1) == 1 + line_start(t, 0));
            } else {
                lemma_line_shape(t, 0);
                assert forall|k: int|
                    line_start(s, i) <= k < line_start(s, i + 1) - 1 implies !is_newline(
                    #[trigger] s[k],
                ) by {
                    if k > 0 {
                        assert(s[k] == t[k - 1]);
                    }
                }
            }
        } else if is_newline(s[0]) {
            lemma_line_shape(t, (i - 1) as nat);
            assert forall|k: int|
                line_start(s, i) <= k < line_start(s, i + 1) - 1 implies !is_newline(
                #[trigger] s[k],
            ) by {
                assert(s[k] == t[k - 1]);
            }
        } else {
            lemma_line_shape(t, i);
            assert forall|k: int|
                line_start(s, i) <= k < line_start(s, i + 1) - 1 implies !is_newline(
                #[trigger] s[k],
            ) by {
                assert(s[k] == t[k - 1]);
            }
        }
        if i == newline_count(s) && s.len() > line_start(s, i) {
            assert(!is_newline(s[s.len() - 1]));
        }
    }
}

/// The visible length of a line is its length less its line break, if any.
pub proof fn lemma_visible_len(s: Seq<char>, i: nat)
    requires
        i <= newline_count(s),
    ensures
        visible_len(s, i) == line_len(s, i) - (if i < newline_count(s) { 1int } else { 0int }),
        visible_len(s, i) <= line_len(s, i),
        line_start(s, i) + visible_len(s, i) <= s.len(),
        forall|k: int|
            line_start(s, i) <= k < line_start(s, i) + visible_len(s, i) ==> !is_newline(
                #[trigger] s[k],
            ),
{
    lemma_line_shape(s, i);
}

/// Inserting a character adds a line break exactly when it is one.
pub proof fn lemma_insert_newline_count(s: Seq<char>, k: int, c: char)
    requires
        0 <= k <= s.len(),
    ensures
        newline_count(s.insert(k, c)) == newline_count(s) + if is_newline(c) { 1nat } else { 0nat },
    decreases s.len(),
{
    let t = s.insert(k, c);
    if k == 0 {
        assert(t.drop_first() =~= s);
    } else {
        assert(t.drop_first() =~= s.drop_first().insert(k - 1, c));
        lemma_insert_newline_count(s.drop_first(), k - 1, c);
    }
}

/// Removing a character removes a line break exactly when it is one.
pub proof fn lemma_remove_newline_count(s: Seq<char>, k: int)
    requires
        0 <= k < s.len(),
    ensures
        newline_count(s.remove(k)) + (if is_newline(s[k]) { 1nat } else { 0nat }) == newline_count(s),
    decreases s.len(),
{
    let t = s.remove(k);
    if k == 0 {
        assert(t =~= s.drop_first());
    } else {
        assert(t.drop_first() =~= s.drop_first().remove(k - 1));
        lemma_remove_newline_count(s.drop_first(), k - 1);
    }
}

/// Inserting at or after the start of a line leaves that start in place.
pub proof fn lemma_insert_keeps_line_start(s: Seq<char>, k: int, c: char, j: nat)
    requires
        0 <= k <= s.len(),
        j <= newline_count(s),
        line_start(s, j) <= k,
    ensures
        line_start(s.insert(k, c), j) == line_start(s, j),
    decreases s.len(),
{
    let t = s.insert(k, c);
    if j > 0 && s.len() > 0 && k > 0 {
        assert(t.drop_first() =~= s.drop_first().insert(k - 1, c));
        if is_newline(s[0]) {
            lemma_insert_keeps_line_start(s.drop_first(), k - 1, c, (j - 1) as nat);
        } else {
            lemma_insert_keeps_line_start(s.drop_first(), k - 1, c, j);
        }
    }
}

/// A line that started after the insertion point, or lay past the last
/// line, starts after the inserted character.
pub proof fn lemma_insert_moves_line_start(s: Seq<char>, k: int, c: char, j: nat)
    requires
        0 <= k <= s.len(),
        j > 0,
        j > newline_count(s) || line_start(s, j) > k,
    ensures
        line_start(s.insert(k, c), j) >= k + 1,
    decreases s.len(),
{
    let t = s.insert(k, c);
    if s.len() > 0 && k > 0 {
        assert(t.drop_first() =~= s.drop_first().insert(k - 1, c));
        if is_newline(s[0]) {
            if j > 1 {
                lemma_insert_moves_line_start(s.drop_first(), k - 1, c, (j - 1) as nat);
            } else {
                assert(newline_count(s) >= 1);
                assert(line_start(s, 1) == 1 + line_start(s.drop_first(), 0));
            }
        } else {
            lemma_insert_moves_line_start(s.drop_first(), k - 1, c, j);
        }
    }
}

/// Removing at or after the start of a line leaves that start in place.
pub proof fn lemma_remove_keeps_line_start(s: Seq<char>, k: int, j: nat)
    requires
        0 <= k < s.len(),
        j <= newline_count(s),
        line_start(s, j) <= k,
    ensures
        line_start(s.remove(k), j) == line_start(s, j),
    decreases s.len(),
{
    let t = s.remove(k);
    if j > 0 && k > 0 {
        assert(t.drop_first() =~= s.drop_first().remove(k - 1));
        if is_newline(s[0]) {
            lemma_remove_keeps_line_start(s.drop_first(), k - 1, (j - 1) as nat);
        } else {
            lemma_remove_keeps_line_start(s.drop_first(), k - 1, j);
        }
    }
}

/// Removing the line break that ends line `l - 1` moves every later line
/// start back by one line and one character.
pub proof fn lemma_remove_line_break_shifts(s: Seq<char>, l: nat, j: nat)
    requires
        1 <= l <= newline_count(s),
        l <= j,
    ensures
        line_start(s.remove(line_start(s, l) - 1), j) == line_start(s, j + 1) - 1,
    decreases s.len(),
{
    let k = line_start(s, l) - 1;
    let t = s.remove(k);
    lemma_line_shape(s, (l - 1) as nat);
    if k == 0 {
        assert(t =~= s.drop_first());
        if !is_newline(s[0]) {
            assert(line_start(s, l) == 1 + line_start(s.drop_first(), l));
        }
    } else {
        assert(t.drop_first() =~= s.drop_first().remove(k - 1));
        if is_newline(s[0]) {
            if l == 1 {
                assert(line_start(s, 1) == 1 + line_start(s.drop_first(), 0));
            } else {
                lemma_remove_line_break_shifts(s.drop_first(), (l - 1) as nat, (j - 1) as nat);
            }
        } else {
            lemma_remove_line_break_shifts(s.drop_first(), l, j);
        }
    }
}

} // verus!
