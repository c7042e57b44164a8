//! What part of the buffer a text view shows, and where its cursor goes.
//!
//! A view shows whole lines: it skips some lines at the top, and shows as
//! many as fit below them. The pixel arithmetic that picks those numbers
//! stays with the widget; from the numbers on, the choices are made here.
use vstd::prelude::*;

use crate::buffer::{cursor_in_text, Buffer};
use crate::laws::cursor_drawn_iff_shown;
use crate::encoding::{lemma_utf8_len_prefix, utf8_len};
use crate::lines::{
    lemma_line_index_monotone, lemma_line_of_position, lemma_line_start, lemma_line_start_is,
    lemma_line_starts_ordered, line_count, line_index, line_start,
};
use crate::rope_text::{
    rope_char_at, rope_char_to_byte, rope_char_to_line, rope_chars, rope_len_lines,
    rope_line_to_char, rope_slice_to_string,
};

verus! {

/// The number of lines that can be scrolled past while a screen of
/// `max_lines` lines is still full; `None` when the text has fewer lines.
pub open spec fn lines_above_fold_of(s: Seq<char>, max_lines: nat) -> Option<nat> {
    if line_count(s) >= max_lines {
        Some((line_count(s) - max_lines) as nat)
    } else {
        None
    }
}

/// The last line shown (exclusive) when `first` lines are skipped and up to
/// `max_lines` fit on the screen.
pub open spec fn end_line(s: Seq<char>, first: nat, max_lines: nat) -> nat {
    if first + max_lines <= line_count(s) {
        first + max_lines
    } else {
        line_count(s)
    }
}

/// The chars shown: from the start of line `first` to the start of the
/// line after the last one shown.
pub open spec fn visible_chars(s: Seq<char>, first: nat, max_lines: nat) -> (nat, nat) {
    (line_start(s, first), line_start(s, end_line(s, first, max_lines)))
}

/// Where the cursor is drawn in a view.
#[derive(Clone, Copy, Debug, PartialEq, Eq)]
pub struct CursorPlacement {
    /// The byte index of the cursor in the shown text.
    pub byte_index: usize,
    /// The line of the shown text that the cursor lies on.
    pub line: usize,
    /// The char just before the cursor (or the first char, for a cursor at
    /// the start) is a line feed, so the cursor goes to the line's left edge.
    pub after_newline: bool,
}

/// Whether the cursor is drawn, and where: `None` when it lies above the
/// shown text, past its end, or on a line below the `layout_lines` that the
/// layout holds.
pub open spec fn cursor_placement_of(
    s: Seq<char>,
    cursor: nat,
    first: nat,
    max_lines: nat,
    layout_lines: nat,
) -> Option<(nat, nat, bool)> {
    let (start, end) = visible_chars(s, first, max_lines);
    let cursor_byte = utf8_len(s.take(cursor as int));
    let start_byte = utf8_len(s.take(start as int));
    let end_byte = utf8_len(s.take(end as int));
    let before = if cursor == 0 { 0 } else { (cursor - 1) as nat };
    if cursor_byte < start_byte {
        None
    } else if end_byte - start_byte < cursor_byte - start_byte {
        None
    } else if line_index(s, cursor as int) - first >= layout_lines {
        None
    } else {
        Some(
            (
                (cursor_byte - start_byte) as nat,
                (line_index(s, cursor as int) - first) as nat,
                before < s.len() && s[before as int] == '\n',
            ),
        )
    }
}

impl Buffer {
    /// How many lines can be scrolled past while a screen of `max_lines`
    /// lines stays full; `None` when the whole text fits.
    pub fn lines_above_fold(&self, max_lines: usize) -> (r: Option<usize>)
        ensures
            r matches Some(n) ==> lines_above_fold_of(self@.0, max_lines as nat) == Some(
                n as nat,
            ),
            r is None ==> lines_above_fold_of(self@.0, max_lines as nat) is None,
            r is Some <==> line_count(self@.0) >= max_lines,
            r matches Some(n) ==> n + max_lines == line_count(self@.0),
    {
        rope_len_lines(self.rope()).checked_sub(max_lines)
    }

    /// The char range shown when `first_line` lines are skipped and up to
    /// `max_lines` lines fit on the screen.
    pub fn visible_range(&self, first_line: usize, max_lines: usize) -> (r: (usize, usize))
        requires
            self.wf(),
            first_line <= line_count(self@.0),
        ensures
            (r.0 as nat, r.1 as nat) == visible_chars(self@.0, first_line as nat, max_lines as nat),
            r.0 <= r.1 <= self@.0.len(),
            r.0 == line_start(self@.0, first_line as nat),
            first_line + max_lines < line_count(self@.0) ==> r.1 == line_start(
                self@.0,
                (first_line + max_lines) as nat,
            ),
            first_line + max_lines >= line_count(self@.0) ==> r.1 == self@.0.len(),
            forall|l: nat|
                first_line <= l < first_line + max_lines && l < line_count(self@.0) ==> r.0
                    <= #[trigger] line_start(self@.0, l) && line_start(self@.0, l + 1) <= r.1,
    {
        let rope = self.rope();
        let ghost s = rope_chars(*rope);
        let lines = rope_len_lines(rope);
        let start = rope_line_to_char(rope, first_line);
        // The smaller of `first_line + max_lines` and the number of lines.
        let last = if max_lines <= lines - first_line {
            first_line + max_lines
        } else {
            lines
        };
        let end = rope_line_to_char(rope, last);
        proof {
            lemma_line_start(s, first_line as nat);
            lemma_line_start(s, last as nat);
            if first_line < lines {
                lemma_line_start_is(s, first_line as nat, start as int);
            }
            if last < lines {
                lemma_line_start_is(s, last as nat, end as int);
            }
            lemma_line_starts_ordered(s, first_line as nat, last as nat);
            crate::lines::lemma_lines_between(s, first_line as nat, last as nat);
        }
        (start, end)
    }

    /// The text shown between two char positions.
    pub fn visible_text(&self, start: usize, end: usize) -> (text: String)
        requires
            self.wf(),
            start <= end <= self@.0.len(),
        ensures
            text@ == self@.0.subrange(start as int, end as int),
    {
        rope_slice_to_string(self.rope(), start, end)
    }

    /// Where the cursor is drawn in a view that skips `first_line` lines,
    /// shows up to `max_lines`, and whose layout holds `layout_lines` lines;
    /// `None` when it is not drawn.
    pub fn cursor_placement(
        &self,
        first_line: usize,
        max_lines: usize,
        layout_lines: usize,
    ) -> (r: Option<CursorPlacement>)
        requires
            self.wf(),
            cursor_in_text(self@),
            first_line <= line_count(self@.0),
            first_line < line_count(self@.0) || self@.1 < self@.0.len(),
        ensures
            r matches Some(p) ==> cursor_placement_of(
                self@.0,
                self@.1,
                first_line as nat,
                max_lines as nat,
                layout_lines as nat,
            ) == Some((p.byte_index as nat, p.line as nat, p.after_newline)),
            r is None ==> cursor_placement_of(
                self@.0,
                self@.1,
                first_line as nat,
                max_lines as nat,
                layout_lines as nat,
            ) is None,
            ({
                let t = self@.0;
                let c = self@.1;
                let start = line_start(t, first_line as nat);
                let end = if first_line + max_lines < line_count(t) {
                    line_start(t, (first_line + max_lines) as nat)
                } else {
                    t.len()
                };
                &&& r is Some <==> {
                    &&& start <= c <= end
                    &&& line_index(t, c as int) - first_line < layout_lines
                }
                &&& r matches Some(p) ==> {
                    &&& p.byte_index == utf8_len(t.subrange(start as int, c as int))
                    &&& p.line == line_index(t, c as int) - first_line
                    &&& p.after_newline == (if c == 0 {
                        t.len() > 0 && t[0] == '\n'
                    } else {
                        t[c - 1] == '\n'
                    })
                }
            }),
    {
        proof {
            cursor_drawn_iff_shown(
                self@.0,
                self@.1,
                first_line as nat,
                max_lines as nat,
                layout_lines as nat,
            );
        }
        let (start, end) = self.visible_range(first_line, max_lines);
        let rope = self.rope();
        let ghost s = rope_chars(*rope);
        let cursor = self.cursor();
        let cursor_byte = rope_char_to_byte(rope, cursor);
        let start_byte = rope_char_to_byte(rope, start);
        // A cursor above the shown text is not drawn.
        if cursor_byte < start_byte {
            return None;
        }
        let text_byte_idx = cursor_byte - start_byte;
        let end_byte = rope_char_to_byte(rope, end);
        proof {
            lemma_utf8_len_prefix(s, start as int, end as int);
        }
        let local_len = end_byte - start_byte;
        if local_len < text_byte_idx {
            return None;
        }
        proof {
            // The cursor lies at or after the start of the shown text, so on
            // a shown line.
            if cursor < start {
                lemma_utf8_len_prefix(s, cursor as int, start as int);
            }
            lemma_line_start(s, first_line as nat);
            lemma_line_index_monotone(s, start as int, cursor as int);
            if first_line == line_count(s) {
                lemma_line_of_position(s, s.len() as int);
            }
        }
        let cursor_line = rope_char_to_line(rope, cursor);
        let local_lineno = cursor_line - first_line;
        // A cursor below the layout's lines is not drawn.
        if local_lineno >= layout_lines {
            return None;
        }
        let before = cursor.saturating_sub(1);
        let after_newline = match rope_char_at(rope, before) {
            Some(ch) => ch == '\n',
            None => false,
        };
        Some(CursorPlacement { byte_index: text_byte_idx, line: local_lineno, after_newline })
    }
}

} // verus!
