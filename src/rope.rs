//! The rope that stores a buffer's text, seen through what its crate
//! documents. Every item here is trusted: its contract is taken from the
//! `ropey` sources, built with the crate's optional line-ending features
//! off, so that `'\n'` alone breaks a line.

use vstd::prelude::*;
use ropey::Rope;
use crate::text::{line_count, line_len, line_start, line_text};

verus! {

#[verifier::external_type_specification]
#[verifier::external_body]
pub struct ExRope(Rope);

/// The characters a rope holds, in order.
pub uninterp spec fn rope_text(r: Rope) -> Seq<char>;

/// Relies on `Rope::from_str`: the rope holds the characters of `s`.
#[verifier::external_body]
pub(crate) fn rope_from_str(s: &str) -> (r: Rope)
    ensures
        rope_text(r) == s@,
{
    Rope::from_str(s)
}

/// Relies on `Rope::len_chars`: the number of characters.
#[verifier::external_body]
pub(crate) fn rope_len_chars(r: &Rope) -> (n: usize)
    ensures
        n == rope_text(*r).len(),
{
    r.len_chars()
}

/// Relies on `Rope::len_lines`: the number of line breaks plus one.
#[verifier::external_body]
pub(crate) fn rope_len_lines(r: &Rope) -> (n: usize)
    ensures
        n == line_count(rope_text(*r)),
{
    r.len_lines()
}

/// Relies on `Rope::line_to_char`: the offset of the first character of a
/// line, or the length for the line one past the last. It panics past that.
#[verifier::external_body]
pub(crate) fn rope_line_to_char(r: &Rope, line: usize) -> (n: usize)
    requires
        line <= line_count(rope_text(*r)),
    ensures
        n == line_start(rope_text(*r), line as nat),
{
    r.line_to_char(line)
}

/// Relies on `Rope::line` and `RopeSlice::len_chars`: the length of a line,
/// its line break included. `Rope::line` panics past the last line.
#[verifier::external_body]
pub(crate) fn rope_line_len(r: &Rope, line: usize) -> (n: usize)
    requires
        line < line_count(rope_text(*r)),
    ensures
        n == line_len(rope_text(*r), line as nat),
{
    r.line(line).len_chars()
}

/// Relies on `Rope::line` and the slice's `Display`: the characters of a
/// line, its line break included.
#[verifier::external_body]
pub(crate) fn rope_line_string(r: &Rope, line: usize) -> (t: String)
    requires
        line < line_count(rope_text(*r)),
    ensures
        t@ == line_text(rope_text(*r), line as nat),
{
    r.line(line).to_string()
}

/// Relies on `Rope::char`: the character at an offset. It panics at or
/// past the end.
#[verifier::external_body]
pub(crate) fn rope_char(r: &Rope, idx: usize) -> (c: char)
    requires
        idx < rope_text(*r).len(),
    ensures
        c == rope_text(*r)[idx as int],
{
    r.char(idx)
}

/// Relies on `Rope::insert_char`: the character goes in at the offset. It
/// panics past the end.
#[verifier::external_body]
pub(crate) fn rope_insert_char(r: &mut Rope, idx: usize, ch: char)
    requires
        idx <= rope_text(*old(r)).len(),
    ensures
        rope_text(*final(r)) == rope_text(*old(r)).insert(idx as int, ch),
{
    r.insert_char(idx, ch)
}

/// Relies on `Rope::remove`: the characters in `start..end` are taken out.
/// It panics on a reversed range or one past the end.
#[verifier::external_body]
pub(crate) fn rope_remove(r: &mut Rope, start: usize, end: usize)
    requires
        start <= end <= rope_text(*old(r)).len(),
    ensures
        rope_text(*final(r)) == rope_text(*old(r)).subrange(0, start as int) + rope_text(
            *old(r),
        ).subrange(end as int, rope_text(*old(r)).len() as int),
{
    r.remove(start..end)
}

/// Relies on the rope's `Display`: it writes the characters in order.
#[verifier::external_body]
pub(crate) fn rope_to_string(r: &Rope) -> (t: String)
    ensures
        t@ == rope_text(*r),
{
    r.to_string()
}

} // verus!
