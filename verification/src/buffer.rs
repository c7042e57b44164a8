//! The editing buffer: text and a cursor.
use vstd::prelude::*;

use ropey::Rope;

use crate::rope_text::{
    rope_chars, rope_clone, rope_from_str, rope_insert_char, rope_len_chars, rope_new, rope_remove,
    rope_to_string, rope_char_to_line, rope_line_to_char, rope_len_lines, rope_eq,
};
use crate::lines::{
    line_count, line_index, line_start, lemma_line_of_position, lemma_line_start_is,
    lemma_line_starts_ordered, lemma_on_line,
};

verus! {

/// What a buffer holds: its text and its cursor.
pub type Contents = (Seq<char>, nat);

/// The cursor lies between two chars, or at either end of the text. A move
/// down can take it further; the operations that read the text at the
/// cursor ask for this.
pub open spec fn cursor_in_text(v: Contents) -> bool {
    v.1 <= v.0.len()
}

/// Text and cursor after typing `ch`: it goes in at the cursor, and the
/// cursor moves past it.
pub open spec fn after_insert(v: Contents, ch: char) -> Contents {
    (v.0.insert(v.1 as int, ch), v.1 + 1)
}

/// Text and cursor after a delete: the char just before the cursor goes,
/// and the cursor moves back over it; at the start nothing happens.
pub open spec fn after_delete(v: Contents) -> Contents {
    if v.1 == 0 {
        v
    } else {
        (v.0.remove(v.1 - 1), (v.1 - 1) as nat)
    }
}

/// Text and cursor after a move right: one char on, but not past the end
/// (a cursor beyond the end comes back to it).
pub open spec fn after_right(v: Contents) -> Contents {
    (v.0, if v.1 + 1 <= v.0.len() { v.1 + 1 } else { v.0.len() })
}

/// Text and cursor after a move left: one char back, but not before the start.
pub open spec fn after_left(v: Contents) -> Contents {
    (v.0, if v.1 == 0 { 0 } else { (v.1 - 1) as nat })
}

/// How far the cursor at `c` lies into its line.
pub open spec fn column(s: Seq<char>, c: nat) -> int {
    c - line_start(s, line_index(s, c as int))
}

/// Where a move up takes the cursor at `c`: as far into the line above as
/// it was into its own; on the first line it stays.
pub open spec fn up_target(s: Seq<char>, c: nat) -> int {
    let l = line_index(s, c as int);
    line_start(s, if l == 0 { 0 } else { (l - 1) as nat }) + column(s, c)
}

/// Where a move down takes the cursor at `c`: as far into the line below as
/// it was into its own.
pub open spec fn down_target(s: Seq<char>, c: nat) -> int {
    line_start(s, line_index(s, c as int) + 1) + column(s, c)
}

/// Text and cursor after a move up.
pub open spec fn after_up(v: Contents) -> Contents {
    (v.0, up_target(v.0, v.1) as nat)
}

/// A move down keeps the cursor within the text (it may leave it: on the
/// last line it goes past the end).
pub open spec fn down_stays_in_text(v: Contents) -> bool {
    down_target(v.0, v.1) <= v.0.len()
}

/// Text and cursor after a move down, which is not clamped to the text.
pub open spec fn after_down(v: Contents) -> Contents {
    (v.0, down_target(v.0, v.1) as nat)
}

/// A text buffer with a cursor.
///
/// Char indices of the text and cursor positions relate like this:
///
/// ```text
/// Text:      0   1   2   3   4   5
/// Cursor:  0   1   2   3   4   5   6
/// ```
#[derive(Debug)]
pub struct Buffer {
    text: Rope,
    cursor: usize,
}

impl View for Buffer {
    type V = Contents;

    closed spec fn view(&self) -> Contents {
        (rope_chars(self.text), self.cursor as nat)
    }
}

impl Default for Buffer {
    /// An empty buffer.
    fn default() -> (b: Self)
        ensures
            b.wf(),
            b@ == (Seq::<char>::empty(), 0nat),
    {
        Buffer::new()
    }
}

impl Clone for Buffer {
    /// A buffer with the same text and cursor.
    fn clone(&self) -> (b: Self)
        ensures
            b@ == self@,
    {
        Buffer { text: rope_clone(&self.text), cursor: self.cursor }
    }
}

impl Buffer {
    /// The buffer's invariant: the text's length fits in a `usize`.
    pub open spec fn wf(&self) -> bool {
        self@.0.len() <= usize::MAX
    }

    /// Creates an empty buffer.
    pub fn new() -> (b: Self)
        ensures
            b.wf(),
            b@ == (Seq::<char>::empty(), 0nat),
    {
        Buffer { text: rope_new(), cursor: 0 }
    }

    /// Creates a buffer that holds `text`, with the cursor at the start.
    pub fn new_text(text: &str) -> (b: Self)
        ensures
            b.wf(),
            b@ == (text@, 0nat),
    {
        let rope = rope_from_str(text);
        // The rope counts its chars in a usize.
        let len = rope_len_chars(&rope);
        assert(len == text@.len());
        Buffer { text: rope, cursor: 0 }
    }

    /// Inserts a char at the cursor position.
    pub fn insert(&mut self, ch: char)
        requires
            old(self).wf(),
            cursor_in_text(old(self)@),
            old(self)@.0.len() < usize::MAX,
        ensures
            final(self).wf(),
            final(self)@ == after_insert(old(self)@, ch),
            final(self)@.0 == old(self)@.0.insert(old(self)@.1 as int, ch),
            final(self)@.0.len() == old(self)@.0.len() + 1,
            final(self)@.0[old(self)@.1 as int] == ch,
            final(self)@.1 == old(self)@.1 + 1,
    {
        rope_insert_char(&mut self.text, self.cursor, ch);
        self.cursor = self.cursor + 1;
    }

    /// Deletes the char behind the cursor.
    pub fn delete(&mut self)
        requires
            old(self).wf(),
            cursor_in_text(old(self)@),
        ensures
            final(self).wf(),
            final(self)@ == after_delete(old(self)@),
            old(self)@.1 == 0 ==> final(self)@ == old(self)@,
            old(self)@.1 > 0 ==> final(self)@.0 == old(self)@.0.remove(old(self)@.1 - 1),
            old(self)@.1 > 0 ==> final(self)@.0.len() + 1 == old(self)@.0.len(),
            old(self)@.1 > 0 ==> final(self)@.1 + 1 == old(self)@.1,
    {
        // If the cursor is on 0, we don't delete.
        if self.cursor != 0 {
            let c = self.cursor;
            rope_remove(&mut self.text, c - 1, c);
            self.cursor = c - 1;
            proof {
                let old_text = rope_chars(old(self).text);
                assert(rope_chars(self.text) =~= old_text.remove(c - 1));
            }
        }
    }

    /// Moves the cursor to the right.
    pub fn right(&mut self)
        requires
            old(self).wf(),
        ensures
            final(self).wf(),
            final(self)@ == after_right(old(self)@),
            final(self)@.0 == old(self)@.0,
            old(self)@.1 < old(self)@.0.len() ==> final(self)@.1 == old(self)@.1 + 1,
            old(self)@.1 >= old(self)@.0.len() ==> final(self)@.1 == old(self)@.0.len(),
    {
        // Make sure we don't go past the end of the text.
        let len = rope_len_chars(&self.text);
        let next = self.cursor.saturating_add(1);
        self.cursor = if next < len { next } else { len };
    }

    /// Moves the cursor to the left.
    pub fn left(&mut self)
        requires
            old(self).wf(),
        ensures
            final(self).wf(),
            final(self)@ == after_left(old(self)@),
            final(self)@.0 == old(self)@.0,
            old(self)@.1 > 0 ==> final(self)@.1 + 1 == old(self)@.1,
            old(self)@.1 == 0 ==> final(self)@.1 == 0,
    {
        // Make sure we don't go below index 0.
        self.cursor = self.cursor.saturating_sub(1);
    }

    /// Moves the cursor to the line above, as far into it as it was into its
    /// own line.
    pub fn up(&mut self)
        requires
            old(self).wf(),
            cursor_in_text(old(self)@),
        ensures
            final(self).wf(),
            final(self)@ == after_up(old(self)@),
            final(self)@.0 == old(self)@.0,
            cursor_in_text(final(self)@),
            final(self)@.1 <= old(self)@.1,
            ({
                let s = old(self)@.0;
                let c = old(self)@.1;
                let l = line_index(s, c as int);
                &&& l == 0 ==> final(self)@.1 == c
                &&& l > 0 ==> final(self)@.1 == line_start(s, (l - 1) as nat) + (c - line_start(
                    s,
                    l,
                ))
                &&& l > 0 ==> final(self)@.1 < c
                &&& l > 0 && c - line_start(s, l) < line_start(s, l) - line_start(s, (l - 1) as nat)
                    ==> line_index(s, final(self)@.1 as int) == l - 1
            }),
    {
        let ghost s = rope_chars(self.text);
        let lineno = rope_char_to_line(&self.text, self.cursor);
        proof {
            lemma_line_of_position(s, self.cursor as int);
        }
        let start_of_line = rope_line_to_char(&self.text, lineno);
        proof {
            lemma_line_start_is(s, lineno as nat, start_of_line as int);
        }
        let into_this_line = self.cursor - start_of_line;
        let prev_line = lineno.saturating_sub(1);
        let start_of_prev = rope_line_to_char(&self.text, prev_line);
        proof {
            lemma_line_start_is(s, prev_line as nat, start_of_prev as int);
            lemma_line_starts_ordered(s, prev_line as nat, lineno as nat);
            if lineno > 0 {
                crate::lines::lemma_line_starts_increase(s, prev_line as nat, lineno as nat);
                if into_this_line < start_of_line - start_of_prev {
                    lemma_on_line(s, prev_line as nat, start_of_prev + into_this_line);
                }
            }
        }
        self.cursor = start_of_prev + into_this_line;
    }

    /// Whether the position a move down goes to fits in a `usize`.
    pub fn down_target_fits(&self) -> (fits: bool)
        requires
            cursor_in_text(self@),
        ensures
            fits == (down_target(self@.0, self@.1) <= usize::MAX),
            ({
                let s = self@.0;
                let c = self@.1;
                let l = line_index(s, c as int);
                fits == (line_start(s, l + 1) + (c - line_start(s, l)) <= usize::MAX)
            }),
    {
        let ghost s = rope_chars(self.text);
        let lines = rope_len_lines(&self.text);
        let lineno = rope_char_to_line(&self.text, self.cursor);
        proof {
            lemma_line_of_position(s, self.cursor as int);
        }
        let start_of_line = rope_line_to_char(&self.text, lineno);
        proof {
            lemma_line_start_is(s, lineno as nat, start_of_line as int);
        }
        let into_this_line = self.cursor - start_of_line;
        let start_of_next = rope_line_to_char(&self.text, lineno + 1);
        proof {
            if lineno + 1 < lines {
                lemma_line_start_is(s, (lineno + 1) as nat, start_of_next as int);
            }
            crate::lines::lemma_line_start(s, (lineno + 1) as nat);
        }
        into_this_line <= usize::MAX - start_of_next
    }

    /// Moves the cursor to the line below, as far into it as it was into its
    /// own line. From the last line this takes the cursor past the end of the
    /// text.
    pub fn down(&mut self)
        requires
            old(self).wf(),
            cursor_in_text(old(self)@),
            down_target(old(self)@.0, old(self)@.1) <= usize::MAX,
        ensures
            final(self).wf(),
            final(self)@ == after_down(old(self)@),
            down_stays_in_text(old(self)@) ==> cursor_in_text(final(self)@),
            final(self)@.0 == old(self)@.0,
            ({
                let s = old(self)@.0;
                let c = old(self)@.1;
                let l = line_index(s, c as int);
                &&& final(self)@.1 == line_start(s, l + 1) + (c - line_start(s, l))
                &&& line_start(s, l) <= c
                &&& final(self)@.1 >= line_start(s, l + 1)
                &&& l + 1 < line_count(s) ==> line_index(s, final(self)@.1 as int) > l
                &&& l + 1 == line_count(s) ==> final(self)@.1 == s.len() + (c - line_start(s, l))
                &&& l + 1 < line_count(s) && final(self)@.1 < line_start(s, l + 2) ==> line_index(
                    s,
                    final(self)@.1 as int,
                ) == l + 1
            }),
    {
        let ghost s = rope_chars(self.text);
        let lines = rope_len_lines(&self.text);
        let lineno = rope_char_to_line(&self.text, self.cursor);
        proof {
            lemma_line_of_position(s, self.cursor as int);
        }
        let start_of_line = rope_line_to_char(&self.text, lineno);
        proof {
            lemma_line_start_is(s, lineno as nat, start_of_line as int);
        }
        let into_this_line = self.cursor - start_of_line;
        let start_of_next = rope_line_to_char(&self.text, lineno + 1);
        proof {
            if lineno + 1 < lines {
                lemma_line_start_is(s, (lineno + 1) as nat, start_of_next as int);
            }
            crate::lines::lemma_line_start(s, (lineno + 1) as nat);
            let t = start_of_next + into_this_line;
            if lineno + 1 < lines {
                crate::lines::lemma_line_index_monotone(s, start_of_next as int, t);
                if t < line_start(s, (lineno + 2) as nat) {
                    lemma_on_line(s, (lineno + 1) as nat, t);
                }
            }
        }
        self.cursor = start_of_next + into_this_line;
    }

    /// The rope that holds the text.
    pub fn rope(&self) -> (r: &Rope)
        ensures
            rope_chars(*r) == self@.0,
    {
        &self.text
    }

    /// Moves the cursor to `cursor`, which may be at most one past the end
    /// of the text.
    pub fn set_cursor(&mut self, cursor: usize)
        requires
            old(self).wf(),
            cursor <= old(self)@.0.len() + 1,
        ensures
            final(self).wf(),
            final(self)@ == (old(self)@.0, cursor as nat),
    {
        self.cursor = cursor;
    }

    /// The number of chars of the text.
    pub fn len_chars(&self) -> (n: usize)
        ensures
            n == self@.0.len(),
    {
        rope_len_chars(&self.text)
    }

    /// The number of lines of the text.
    pub fn len_lines(&self) -> (n: usize)
        ensures
            n == line_count(self@.0),
    {
        rope_len_lines(&self.text)
    }

    /// Whether two buffers hold the same text and cursor.
    pub fn same(&self, other: &Buffer) -> (same: bool)
        ensures
            same == (self@ == other@),
    {
        rope_eq(&self.text, &other.text) && self.cursor == other.cursor
    }

    /// The cursor position.
    pub fn cursor(&self) -> (c: usize)
        ensures
            c == self@.1,
    {
        self.cursor
    }

    /// The text, as a `String`.
    pub fn to_string(&self) -> (s: String)
        ensures
            s@ == self@.0,
    {
        rope_to_string(&self.text)
    }
}

} // verus!
