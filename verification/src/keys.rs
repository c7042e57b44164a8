//! What a key press does to a buffer.
use vstd::prelude::*;

use crate::buffer::{
    after_delete, after_down, after_insert, after_left, after_right, after_up, cursor_in_text,
    down_target, Buffer, Contents,
};
use crate::lines::{line_index, line_start};

verus! {

/// A key press, as the editor sees it.
#[derive(Clone, Debug, PartialEq, Eq)]
pub enum EditKey {
    Left,
    Right,
    Up,
    Down,
    /// Delete or Backspace: both remove the char behind the cursor.
    Delete,
    PageDown,
    PageUp,
    Enter,
    /// Keys that type these chars.
    Text(Vec<char>),
    /// Any other key.
    Other,
}

/// What the view should do with its scroll position after a key.
#[derive(Clone, Copy, Debug, PartialEq, Eq)]
pub enum Scroll {
    Keep,
    /// Scroll down one step.
    Down,
    /// Scroll up one step, but not above the top.
    Up,
}

/// Text and cursor after typing `chars`: they go in at the cursor, in order,
/// and the cursor ends up after them. Typing nothing changes nothing.
pub open spec fn after_typing(v: Contents, chars: Seq<char>) -> Contents {
    if chars.len() == 0 {
        v
    } else {
        (v.0.take(v.1 as int) + chars + v.0.skip(v.1 as int), v.1 + chars.len())
    }
}

/// Text and cursor after a key press.
pub open spec fn after_key(v: Contents, key: EditKey) -> Contents {
    match key {
        EditKey::Left => after_left(v),
        EditKey::Right => after_right(v),
        EditKey::Up => after_up(v),
        EditKey::Down => after_down(v),
        EditKey::Delete => after_delete(v),
        EditKey::Enter => after_insert(v, '\n'),
        EditKey::Text(chars) => after_typing(v, chars@),
        _ => v,
    }
}

/// The scroll step that a key asks for.
pub open spec fn scroll_of(key: EditKey) -> Scroll {
    match key {
        EditKey::PageDown => Scroll::Down,
        EditKey::PageUp => Scroll::Up,
        _ => Scroll::Keep,
    }
}

/// The chars that a key adds to the text.
pub open spec fn typed_len(key: EditKey) -> nat {
    match key {
        EditKey::Enter => 1,
        EditKey::Text(chars) => chars.len() as nat,
        _ => 0,
    }
}

/// The key reads or edits the text at the cursor, so the cursor must lie
/// within the text.
pub open spec fn needs_cursor_in_text(key: EditKey) -> bool {
    match key {
        EditKey::Up | EditKey::Down | EditKey::Delete | EditKey::Enter => true,
        EditKey::Text(chars) => chars.len() > 0,
        _ => false,
    }
}

impl Buffer {
    /// Types `chars` at the cursor, one after another.
    pub fn insert_chars(&mut self, chars: &Vec<char>)
        requires
            old(self).wf(),
            chars.len() > 0 ==> cursor_in_text(old(self)@),
            old(self)@.0.len() + chars.len() <= usize::MAX,
        ensures
            final(self).wf(),
            final(self)@ == after_typing(old(self)@, chars@),
            chars.len() == 0 ==> final(self)@ == old(self)@,
            chars.len() > 0 ==> final(self)@.0 == old(self)@.0.take(old(self)@.1 as int) + chars@
                + old(self)@.0.skip(old(self)@.1 as int),
            chars.len() > 0 ==> final(self)@.1 == old(self)@.1 + chars.len(),
    {
        let ghost v0 = self@;
        let n = chars.len();
        if n == 0 {
            return;
        }
        let mut i: usize = 0;
        while i < n
            invariant
                n == chars.len(),
                0 < n,
                0 <= i <= n,
                self.wf(),
                v0.1 <= v0.0.len(),
                v0.0.len() + n <= usize::MAX,
                self@.0 == v0.0.take(v0.1 as int) + chars@.take(i as int) + v0.0.skip(v0.1 as int),
                self@.1 == v0.1 + i,
            decreases n - i,
        {
            let ghost before = self@;
            self.insert(chars[i]);
            proof {
                let a = v0.0.take(v0.1 as int);
                let b = v0.0.skip(v0.1 as int);
                let typed = chars@.take(i as int);
                assert(before.0 == a + typed + b);
                assert(chars@.take(i + 1) =~= typed.push(chars@[i as int]));
                assert((a + typed + b).insert(v0.1 + i, chars@[i as int]) =~= a + typed.push(
                    chars@[i as int],
                ) + b);
            }
            i = i + 1;
        }
        proof {
            assert(chars@.take(n as int) =~= chars@);
        }
    }

    /// Acts on a key press: moves the cursor, deletes, or types; tells the
    /// view how to scroll.
    pub fn handle_key(&mut self, key: &EditKey) -> (scroll: Scroll)
        requires
            old(self).wf(),
            needs_cursor_in_text(*key) ==> cursor_in_text(old(self)@),
            old(self)@.0.len() + typed_len(*key) <= usize::MAX,
            *key is Down ==> down_target(old(self)@.0, old(self)@.1) <= usize::MAX,
        ensures
            final(self).wf(),
            final(self)@ == after_key(old(self)@, *key),
            scroll == scroll_of(*key),
            ({
                let s = old(self)@.0;
                let c = old(self)@.1;
                let l = line_index(s, c as int);
                let t = final(self)@;
                &&& *key is Delete && c == 0 ==> t == old(self)@
                &&& *key is Delete && c > 0 ==> t.0 == s.remove(c - 1) && t.1 + 1 == c
                &&& *key is Enter ==> t.0 == s.insert(c as int, '\n') && t.1 == c + 1
                &&& *key is Left ==> t.0 == s && t.1 == (if c == 0 {
                    0int
                } else {
                    c - 1
                })
                &&& *key is Right ==> t.0 == s && t.1 == (if c < s.len() {
                    c + 1
                } else {
                    s.len()
                })
                &&& *key is Up && l == 0 ==> t == old(self)@
                &&& *key is Up && l > 0 ==> t.0 == s && t.1 == line_start(s, (l - 1) as nat) + (c
                    - line_start(s, l))
                &&& *key is Down ==> t.0 == s && t.1 == line_start(s, l + 1) + (c - line_start(s, l))
                &&& (*key is PageDown || *key is PageUp || *key is Other) ==> t == old(self)@
                &&& *key matches EditKey::Text(chars) ==> if chars.len() == 0 {
                    t == old(self)@
                } else {
                    t.0 == s.take(c as int) + chars@ + s.skip(c as int) && t.1 == c + chars.len()
                }
            }),
            *key is PageDown ==> scroll == Scroll::Down,
            *key is PageUp ==> scroll == Scroll::Up,
            !(*key is PageDown || *key is PageUp) ==> scroll == Scroll::Keep,
    {
        match key {
            EditKey::Left => {
                self.left();
                Scroll::Keep
            },
            EditKey::Right => {
                self.right();
                Scroll::Keep
            },
            EditKey::Up => {
                self.up();
                Scroll::Keep
            },
            EditKey::Down => {
                self.down();
                Scroll::Keep
            },
            EditKey::Delete => {
                self.delete();
                Scroll::Keep
            },
            EditKey::PageDown => Scroll::Down,
            EditKey::PageUp => Scroll::Up,
            EditKey::Enter => {
                self.insert('\n');
                Scroll::Keep
            },
            EditKey::Text(chars) => {
                self.insert_chars(chars);
                Scroll::Keep
            },
            EditKey::Other => Scroll::Keep,
        }
    }
}

} // verus!
