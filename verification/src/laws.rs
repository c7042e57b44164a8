//! Laws that relate the buffer's operations to each other.
use vstd::prelude::*;

use crate::buffer::{
    after_delete, after_down, after_insert, after_left, after_right, after_up, column,
    cursor_in_text, down_stays_in_text, down_target, up_target, Contents,
};
use crate::encoding::{lemma_utf8_len_prefix, lemma_utf8_len_split, utf8_len};
use crate::keys::{after_key, after_typing, EditKey};
use crate::screen::{cursor_placement_of, end_line, lines_above_fold_of, visible_chars};
use crate::lines::{
    lemma_line_of_position, lemma_line_start, lemma_line_starts_ordered, line_count, line_index,
    line_start,
};

verus! {

/// Deleting right after typing a char gives back the text and cursor from
/// before.
pub proof fn delete_undoes_insert(v: Contents, ch: char)
    requires
        cursor_in_text(v),
    ensures
        after_delete(after_insert(v, ch)) == v,
{
    assert(v.0.insert(v.1 as int, ch).remove(v.1 as int) =~= v.0);
}

/// Moving right after a move left comes back, unless the cursor was at the
/// start.
pub proof fn right_undoes_left(v: Contents)
    requires
        cursor_in_text(v),
        v.1 > 0,
    ensures
        after_right(after_left(v)) == v,
{
}

/// Moving left after a move right comes back, unless the cursor was at the
/// end.
pub proof fn left_undoes_right(v: Contents)
    requires
        cursor_in_text(v),
        v.1 < v.0.len(),
    ensures
        after_left(after_right(v)) == v,
{
}

/// Moving the cursor never changes the text, and every operation keeps the
/// cursor within the text, a move down when it lands within the text.
pub proof fn operations_keep_cursor_in_text(v: Contents, ch: char, chars: Seq<char>)
    requires
        cursor_in_text(v),
    ensures
        after_left(v).0 == v.0 && cursor_in_text(after_left(v)),
        after_right(v).0 == v.0 && cursor_in_text(after_right(v)),
        after_up(v).0 == v.0 && cursor_in_text(after_up(v)),
        down_stays_in_text(v) ==> after_down(v).0 == v.0 && cursor_in_text(after_down(v)),
        cursor_in_text(after_insert(v, ch)),
        cursor_in_text(after_delete(v)),
        cursor_in_text(after_typing(v, chars)),
{
    up_never_moves_forward(v);
    lemma_line_of_position(v.0, v.1 as int);
}

/// A move up never takes the cursor forward; on the first line it stays,
/// and on any other line it goes back.
pub proof fn up_never_moves_forward(v: Contents)
    requires
        cursor_in_text(v),
    ensures
        up_target(v.0, v.1) <= v.1,
        0 <= up_target(v.0, v.1),
        line_index(v.0, v.1 as int) == 0 ==> after_up(v) == v,
        line_index(v.0, v.1 as int) > 0 ==> up_target(v.0, v.1) < v.1,
{
    let s = v.0;
    let l = line_index(s, v.1 as int);
    lemma_line_of_position(s, v.1 as int);
    if l > 0 {
        crate::lines::lemma_line_starts_increase(s, (l - 1) as nat, l);
    } else {
        lemma_line_start(s, 0);
    }
}

/// When a move down lands on the next line, a move up comes back.
pub proof fn up_undoes_down(v: Contents)
    requires
        cursor_in_text(v),
        down_stays_in_text(v),
        line_index(v.0, down_target(v.0, v.1)) == line_index(v.0, v.1 as int) + 1,
    ensures
        after_up(after_down(v)) == v,
{
    let s = v.0;
    let l = line_index(s, v.1 as int);
    lemma_line_of_position(s, v.1 as int);
    assert(column(s, down_target(s, v.1) as nat) == column(s, v.1));
}

/// When a move up lands on the line above, a move down comes back.
pub proof fn down_undoes_up(v: Contents)
    requires
        cursor_in_text(v),
        line_index(v.0, v.1 as int) > 0,
        line_index(v.0, up_target(v.0, v.1)) + 1 == line_index(v.0, v.1 as int),
    ensures
        down_stays_in_text(after_up(v)),
        after_down(after_up(v)) == v,
{
    let s = v.0;
    let l = line_index(s, v.1 as int);
    lemma_line_of_position(s, v.1 as int);
    up_never_moves_forward(v);
    assert(column(s, up_target(s, v.1) as nat) == column(s, v.1));
}

/// Typing one char is the same as inserting it.
pub proof fn typing_one_char_is_insert(v: Contents, ch: char)
    requires
        cursor_in_text(v),
    ensures
        after_typing(v, seq![ch]) == after_insert(v, ch),
{
    assert(v.0.take(v.1 as int) + seq![ch] + v.0.skip(v.1 as int) =~= v.0.insert(v.1 as int, ch));
}

/// Deleting right after typing removes the last char typed.
pub proof fn delete_removes_last_typed(v: Contents, chars: Seq<char>, ch: char)
    requires
        cursor_in_text(v),
    ensures
        after_delete(after_typing(v, chars.push(ch))) == after_typing(v, chars),
{
    let a = v.0.take(v.1 as int);
    let b = v.0.skip(v.1 as int);
    assert((a + chars.push(ch) + b).remove((v.1 + chars.len()) as int) =~= a + chars + b);
}

/// A view draws the cursor exactly when it lies within the shown chars (from
/// the start of the first shown line to the start of the line after the
/// last one that fits, or the end of the text) and on one of the layout's
/// lines. It is then drawn at the UTF-8 length of the shown text before it,
/// on its line counted from the first shown one, and at the left edge just
/// after a line feed.
pub proof fn cursor_drawn_iff_shown(
    s: Seq<char>,
    cursor: nat,
    first: nat,
    max_lines: nat,
    layout_lines: nat,
)
    requires
        cursor <= s.len(),
        first <= line_count(s),
        first < line_count(s) || cursor < s.len(),
    ensures
        ({
            let start = line_start(s, first);
            let end = if first + max_lines < line_count(s) {
                line_start(s, first + max_lines)
            } else {
                s.len()
            };
            &&& cursor_placement_of(s, cursor, first, max_lines, layout_lines) is Some <==> {
                &&& start <= cursor <= end
                &&& line_index(s, cursor as int) - first < layout_lines
            }
            &&& cursor_placement_of(s, cursor, first, max_lines, layout_lines) matches Some(p)
                ==> {
                &&& p.0 == utf8_len(s.subrange(start as int, cursor as int))
                &&& p.1 == line_index(s, cursor as int) - first
                &&& p.2 == (if cursor == 0 {
                    s.len() > 0 && s[0] == '\n'
                } else {
                    s[cursor - 1] == '\n'
                })
            }
        }),
{
    let (start, end) = visible_chars(s, first, max_lines);
    lemma_line_start(s, first);
    lemma_line_start(s, end_line(s, first, max_lines));
    assert(end == (if first + max_lines < line_count(s) {
        line_start(s, first + max_lines)
    } else {
        s.len()
    }));
    lemma_line_starts_ordered(s, first, end_line(s, first, max_lines));
    if cursor < start {
        lemma_utf8_len_prefix(s, cursor as int, start as int);
    } else {
        lemma_utf8_len_prefix(s, start as int, cursor as int);
        lemma_utf8_len_split(s, start as int, cursor as int);
        crate::lines::lemma_line_index_monotone(s, start as int, cursor as int);
        if cursor <= end {
            lemma_utf8_len_prefix(s, cursor as int, end as int);
        } else {
            lemma_utf8_len_prefix(s, end as int, cursor as int);
        }
    }
}

/// The Delete key (and Backspace) removes the char just before the cursor
/// and moves the cursor back over it, wherever the cursor is in the text,
/// its end included; at the start of the text it does nothing.
pub proof fn delete_key_removes_char_before_cursor(v: Contents)
    requires
        cursor_in_text(v),
    ensures
        v.1 > 0 ==> after_key(v, EditKey::Delete).0 == v.0.remove(v.1 - 1),
        v.1 > 0 ==> after_key(v, EditKey::Delete).0.len() + 1 == v.0.len(),
        v.1 > 0 ==> after_key(v, EditKey::Delete).1 + 1 == v.1,
        v.1 == 0 ==> after_key(v, EditKey::Delete) == v,
{
}

/// A view that skips `first` lines and fits `max_lines` shows from the
/// start of line `first` to the start of line `first + max_lines`, or to
/// the end of the text when no line is left after those; every line it
/// covers lies wholly within what it shows.
pub proof fn view_shows_whole_lines(s: Seq<char>, first: nat, max_lines: nat)
    requires
        first <= line_count(s),
    ensures
        visible_chars(s, first, max_lines).0 == line_start(s, first),
        first + max_lines < line_count(s) ==> visible_chars(s, first, max_lines).1 == line_start(
            s,
            first + max_lines,
        ),
        first + max_lines >= line_count(s) ==> visible_chars(s, first, max_lines).1 == s.len(),
        forall|l: nat|
            first <= l < first + max_lines && l < line_count(s) ==> visible_chars(s, first, max_lines).0
                <= #[trigger] line_start(s, l) && line_start(s, l + 1) <= visible_chars(
                s,
                first,
                max_lines,
            ).1,
{
    let last = end_line(s, first, max_lines);
    lemma_line_start(s, last);
    crate::lines::lemma_lines_between(s, first, last);
}

/// The lines that can be scrolled past are all the text's lines but those
/// that fill the screen; a line break at the very end of the text starts a
/// last, empty line of its own, which counts.
pub proof fn scrolling_counts_every_line(s: Seq<char>, max_lines: nat)
    ensures
        lines_above_fold_of(s, max_lines) is Some <==> line_count(s) >= max_lines,
        lines_above_fold_of(s, max_lines) matches Some(n) ==> n + max_lines == line_count(s),
        s.len() > 0 && s[s.len() - 1] == '\n' ==> line_count(s) == line_index(
            s,
            s.len() - 1,
        ) + 2,
{
}

/// From any line but the last, a move down goes to the line below: to its
/// start plus the cursor's column, which lies past the cursor's own line.
pub proof fn down_moves_to_next_line(v: Contents)
    requires
        cursor_in_text(v),
        line_index(v.0, v.1 as int) + 1 < line_count(v.0),
    ensures
        ({
            let s = v.0;
            let l = line_index(s, v.1 as int);
            &&& after_down(v).0 == s
            &&& after_down(v).1 == line_start(s, l + 1) + (v.1 - line_start(s, l))
            &&& after_down(v).1 >= line_start(s, l + 1) > v.1
            &&& line_index(s, after_down(v).1 as int) > l
        }),
{
    let s = v.0;
    let l = line_index(s, v.1 as int);
    lemma_line_of_position(s, v.1 as int);
    lemma_line_start(s, l + 1);
    if line_start(s, l + 1) <= v.1 {
        crate::lines::lemma_line_index_monotone(s, line_start(s, l + 1) as int, v.1 as int);
    }
    crate::lines::lemma_line_index_monotone(
        s,
        line_start(s, l + 1) as int,
        after_down(v).1 as int,
    );
}

/// From any line but the first, a move up goes to the line above: to its
/// start plus the cursor's column, which lies before the cursor.
pub proof fn up_moves_to_line_above(v: Contents)
    requires
        cursor_in_text(v),
        line_index(v.0, v.1 as int) > 0,
    ensures
        ({
            let s = v.0;
            let l = line_index(s, v.1 as int);
            &&& after_up(v).0 == s
            &&& after_up(v).1 == line_start(s, (l - 1) as nat) + (v.1 - line_start(s, l))
            &&& after_up(v).1 < v.1
        }),
{
    up_never_moves_forward(v);
    lemma_line_of_position(v.0, v.1 as int);
}

} // verus!
