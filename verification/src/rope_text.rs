//! The rope that holds the text, seen from verified code.
//!
//! `ropey::Rope` is opaque to Verus. What it holds is named by
//! [`rope_chars`]; each rope operation that the buffer uses is called through
//! a small wrapper whose contract is stated over that name.
use vstd::prelude::*;

use ropey::Rope;

use crate::encoding::utf8_len;
use crate::lines::{is_start_of_line, line_count, line_index};

verus! {

#[verifier::external_type_specification]
#[verifier::external_body]
pub struct ExRope(ropey::Rope);

/// The chars that a rope holds, in order.
pub uninterp spec fn rope_chars(rope: Rope) -> Seq<char>;

/// `Rope::new`: an empty rope.
#[verifier::external_body]
pub(crate) fn rope_new() -> (rope: Rope)
    ensures
        rope_chars(rope) == Seq::<char>::empty(),
{
    Rope::new()
}

/// `Rope::clone`: a rope with the same text (the clone shares the tree).
#[verifier::external_body]
pub(crate) fn rope_clone(rope: &Rope) -> (copy: Rope)
    ensures
        rope_chars(copy) == rope_chars(*rope),
{
    rope.clone()
}

/// `Rope::from_str`: a rope that holds the chars of `text`.
#[verifier::external_body]
pub(crate) fn rope_from_str(text: &str) -> (rope: Rope)
    ensures
        rope_chars(rope) == text@,
{
    Rope::from_str(text)
}

/// `Rope::len_chars`: the number of chars in the rope.
#[verifier::external_body]
pub(crate) fn rope_len_chars(rope: &Rope) -> (n: usize)
    ensures
        n == rope_chars(*rope).len(),
{
    rope.len_chars()
}

/// `Rope::insert_char`: puts `ch` at char index `char_idx`; it panics past the end.
#[verifier::external_body]
pub(crate) fn rope_insert_char(rope: &mut Rope, char_idx: usize, ch: char)
    requires
        char_idx <= rope_chars(*old(rope)).len(),
    ensures
        rope_chars(*final(rope)) == rope_chars(*old(rope)).insert(char_idx as int, ch),
{
    rope.insert_char(char_idx, ch)
}

/// `Rope::remove` on `start..end`: takes out the chars in that range; it
/// panics on a reversed range or one that ends past the end.
#[verifier::external_body]
pub(crate) fn rope_remove(rope: &mut Rope, start: usize, end: usize)
    requires
        start <= end <= rope_chars(*old(rope)).len(),
    ensures
        rope_chars(*final(rope)) == rope_chars(*old(rope)).subrange(0, start as int)
            + rope_chars(*old(rope)).subrange(end as int, rope_chars(*old(rope)).len() as int),
{
    rope.remove(start..end)
}

/// `Rope::to_string` (through `Display`, which writes every chunk in order):
/// the text of the rope.
#[verifier::external_body]
pub(crate) fn rope_to_string(rope: &Rope) -> (text: String)
    ensures
        text@ == rope_chars(*rope),
{
    rope.to_string()
}

/// `Rope::len_lines`: one more than the number of line breaks.
#[verifier::external_body]
pub(crate) fn rope_len_lines(rope: &Rope) -> (n: usize)
    ensures
        n == line_count(rope_chars(*rope)),
{
    rope.len_lines()
}

/// `Rope::char_to_line`: the index of the line that char position
/// `char_idx` lies on (the line breaks before it); it panics past the end.
#[verifier::external_body]
pub(crate) fn rope_char_to_line(rope: &Rope, char_idx: usize) -> (line: usize)
    requires
        char_idx <= rope_chars(*rope).len(),
    ensures
        line == line_index(rope_chars(*rope), char_idx as int),
{
    rope.char_to_line(char_idx)
}

/// `Rope::line_to_char`: the char index where line `line_idx` starts, and
/// the end of the text for one past the last line; it panics beyond that.
#[verifier::external_body]
pub(crate) fn rope_line_to_char(rope: &Rope, line_idx: usize) -> (start: usize)
    requires
        line_idx <= line_count(rope_chars(*rope)),
    ensures
        line_idx < line_count(rope_chars(*rope)) ==> is_start_of_line(
            rope_chars(*rope),
            line_idx as nat,
            start as int,
        ),
        line_idx == line_count(rope_chars(*rope)) ==> start == rope_chars(*rope).len(),
{
    rope.line_to_char(line_idx)
}

/// `Rope::char_to_byte`: the byte index of char position `char_idx` in the
/// rope's UTF-8 text; it panics past the end.
#[verifier::external_body]
pub(crate) fn rope_char_to_byte(rope: &Rope, char_idx: usize) -> (byte_idx: usize)
    requires
        char_idx <= rope_chars(*rope).len(),
    ensures
        byte_idx == utf8_len(rope_chars(*rope).take(char_idx as int)),
{
    rope.char_to_byte(char_idx)
}

/// `Rope::chars_at(char_idx).next()`: the char at `char_idx`, or `None` at
/// the end of the text; `chars_at` panics past the end.
#[verifier::external_body]
pub(crate) fn rope_char_at(rope: &Rope, char_idx: usize) -> (ch: Option<char>)
    requires
        char_idx <= rope_chars(*rope).len(),
    ensures
        ch == (if char_idx < rope_chars(*rope).len() {
            Some(rope_chars(*rope)[char_idx as int])
        } else {
            None
        }),
{
    rope.chars_at(char_idx).next()
}

/// `Rope::slice(start..end).to_string()`: the text between two char
/// positions; `slice` panics on a reversed range or one past the end.
#[verifier::external_body]
pub(crate) fn rope_slice_to_string(rope: &Rope, start: usize, end: usize) -> (text: String)
    requires
        start <= end <= rope_chars(*rope).len(),
    ensures
        text@ == rope_chars(*rope).subrange(start as int, end as int),
{
    rope.slice(start..end).to_string()
}

/// `Rope == Rope`: whether two ropes hold the same text.
#[verifier::external_body]
pub(crate) fn rope_eq(a: &Rope, b: &Rope) -> (same: bool)
    ensures
        same == (rope_chars(*a) == rope_chars(*b)),
{
    a == b
}

} // verus!
