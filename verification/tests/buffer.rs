use wingspan_buffer::keys::{EditKey, Scroll};
use wingspan_buffer::screen::CursorPlacement;
use wingspan_buffer::Buffer;

#[test]
fn omni() {
    let mut text = Buffer::new();
    text.insert('a');
    text.insert('b');
    text.insert('c');
    assert_eq!(&text.to_string(), "abc");
    for _ in 0..10 {
        text.left();
    }
    text.insert('d');
    text.insert('e');
    assert_eq!(&text.to_string(), "deabc");
    text.delete();
    assert_eq!(&text.to_string(), "dabc");
    text.delete();
    assert_eq!(&text.to_string(), "abc");
    text.delete();
    assert_eq!(&text.to_string(), "abc");
    text.delete();
    text.delete();
    text.delete();
    assert_eq!(&text.to_string(), "abc");
    text.right();
    text.right();
    text.insert('f');
    assert_eq!(&text.to_string(), "abfc");
    text.delete();
    assert_eq!(&text.to_string(), "abc");
    text.insert('f');
    text.right();
    text.right();
    text.right();
    text.right();
    text.delete();
    assert_eq!(&text.to_string(), "abf");
    text.delete();
    assert_eq!(&text.to_string(), "ab");
    text.delete();
    assert_eq!(&text.to_string(), "a");
    text.delete();
    assert_eq!(&text.to_string(), "");
}

#[test]
fn new_is_empty() {
    let b = Buffer::new();
    assert_eq!(b.to_string(), "");
    assert_eq!(b.cursor(), 0);
    assert_eq!(b.len_lines(), 1);
    let d = Buffer::default();
    assert!(d.same(&b));
}

#[test]
fn new_text_keeps_text_and_starts_at_zero() {
    let b = Buffer::new_text("héllo\nwörld");
    assert_eq!(b.to_string(), "héllo\nwörld");
    assert_eq!(b.cursor(), 0);
    assert_eq!(b.rope().len_chars(), 11);
    assert_eq!(b.rope().to_string(), "héllo\nwörld");
}

#[test]
fn insert_puts_char_at_cursor_and_moves_past_it() {
    let mut b = Buffer::new_text("ac");
    b.right();
    b.insert('b');
    assert_eq!(b.to_string(), "abc");
    assert_eq!(b.cursor(), 2);
}

#[test]
fn delete_undoes_insert() {
    let mut b = Buffer::new_text("xyz");
    b.right();
    b.insert('Q');
    b.delete();
    assert_eq!(b.to_string(), "xyz");
    assert_eq!(b.cursor(), 1);
}

#[test]
fn delete_at_start_does_nothing() {
    let mut b = Buffer::new_text("xyz");
    b.delete();
    assert_eq!(b.to_string(), "xyz");
    assert_eq!(b.cursor(), 0);
}

#[test]
fn right_stops_at_end_and_left_at_start() {
    let mut b = Buffer::new_text("ab");
    b.right();
    b.right();
    assert_eq!(b.cursor(), 2);
    b.right();
    assert_eq!(b.cursor(), 2);
    b.left();
    assert_eq!(b.cursor(), 1);
    b.left();
    b.left();
    assert_eq!(b.cursor(), 0);
}

#[test]
fn left_and_right_undo_each_other() {
    let mut b = Buffer::new_text("abcd");
    b.set_cursor(2);
    b.left();
    b.right();
    assert_eq!(b.cursor(), 2);
    b.right();
    b.left();
    assert_eq!(b.cursor(), 2);
}

#[test]
fn set_cursor_moves_cursor() {
    let mut b = Buffer::new_text("abcd");
    b.set_cursor(4);
    assert_eq!(b.cursor(), 4);
    b.insert('e');
    assert_eq!(b.to_string(), "abcde");
}

#[test]
fn up_keeps_column() {
    let mut b = Buffer::new_text("abc\ndef\nghi");
    b.set_cursor(10); // "gh|i"
    b.up();
    assert_eq!(b.cursor(), 6); // "de|f"
    b.up();
    assert_eq!(b.cursor(), 2); // "ab|c"
    b.up();
    assert_eq!(b.cursor(), 2); // first line: stays
    assert_eq!(b.to_string(), "abc\ndef\nghi");
}

#[test]
fn up_from_a_longer_line_lands_further_on() {
    // The line above is shorter than the column: the cursor ends up past it.
    let mut b = Buffer::new_text("a\nbcdef");
    b.set_cursor(6); // "bcde|f"
    b.up();
    assert_eq!(b.cursor(), 4);
}

#[test]
fn down_keeps_column() {
    let mut b = Buffer::new_text("abc\ndef\nghi");
    b.set_cursor(1);
    assert!(b.down_target_fits());
    b.down();
    assert_eq!(b.cursor(), 5);
    b.down();
    assert_eq!(b.cursor(), 9);
    b.up();
    b.up();
    assert_eq!(b.cursor(), 1);
}

#[test]
fn down_from_last_line_leaves_text() {
    let mut b = Buffer::new_text("abc\nde");
    b.set_cursor(5); // "d|e"
    assert!(b.down_target_fits());
    // line_to_char(2) is the end (6), plus the column 1: past the end.
    b.down();
    assert_eq!(b.cursor(), 7);
    assert_eq!(b.to_string(), "abc\nde");
    // A move right brings the cursor back to the end.
    b.right();
    assert_eq!(b.cursor(), 6);
    b.set_cursor(4); // "|de"
    b.down();
    assert_eq!(b.cursor(), 6);
}

#[test]
fn set_cursor_one_past_the_end() {
    let mut b = Buffer::new_text("ab");
    assert_eq!(b.len_chars(), 2);
    b.set_cursor(3);
    assert_eq!(b.cursor(), 3);
    b.left();
    assert_eq!(b.cursor(), 2);
    b.insert('c');
    assert_eq!(b.to_string(), "abc");
}

#[test]
fn crlf_is_one_line_break() {
    let mut b = Buffer::new_text("ab\r\ncd");
    assert_eq!(b.len_lines(), 2);
    b.set_cursor(5); // "c|d"
    b.up();
    assert_eq!(b.cursor(), 1);
    b.down();
    assert_eq!(b.cursor(), 5);
}

#[test]
fn unicode_line_breaks_count() {
    assert_eq!(Buffer::new_text("a\rb").len_lines(), 2);
    assert_eq!(Buffer::new_text("a\u{2028}b\u{2029}c").len_lines(), 3);
    assert_eq!(Buffer::new_text("a\u{85}b\u{0B}c\u{0C}").len_lines(), 4);
    assert_eq!(Buffer::new_text("a\n").len_lines(), 2);
    assert_eq!(Buffer::new_text("a\r\n\r\n").len_lines(), 3);
    assert_eq!(Buffer::new_text("abc").len_lines(), 1);
}

#[test]
fn same_compares_text_and_cursor() {
    let a = Buffer::new_text("abc");
    let mut b = Buffer::new_text("abc");
    assert!(a.same(&b));
    b.right();
    assert!(!a.same(&b));
    let c = Buffer::new_text("abd");
    assert!(!a.same(&c));
    let d = b.clone();
    assert!(d.same(&b));
}

#[test]
fn lines_above_fold_subtracts_screen_lines() {
    let b = Buffer::new_text("1\n2\n3\n4\n5");
    assert_eq!(b.lines_above_fold(2), Some(3));
    assert_eq!(b.lines_above_fold(5), Some(0));
    assert_eq!(b.lines_above_fold(6), None);
}

#[test]
fn visible_range_covers_shown_lines() {
    let b = Buffer::new_text("aa\nbb\ncc\ndd");
    assert_eq!(b.visible_range(0, 2), (0, 6));
    assert_eq!(b.visible_range(1, 2), (3, 9));
    assert_eq!(b.visible_range(2, 10), (6, 11));
    assert_eq!(b.visible_range(4, 1), (11, 11));
    assert_eq!(b.visible_range(1, usize::MAX), (3, 11));
    assert_eq!(b.visible_text(3, 9), "bb\ncc\n");
}

#[test]
fn cursor_placement_in_view() {
    let mut b = Buffer::new_text("aé\nbb\ncc");
    // Cursor after 'é' on the first line; the view starts at line 0.
    b.set_cursor(2);
    assert_eq!(
        b.cursor_placement(0, 3, 3),
        Some(CursorPlacement { byte_index: 3, line: 0, after_newline: false })
    );
    // The view skips the first line: the cursor is above it.
    assert_eq!(b.cursor_placement(1, 2, 2), None);
    // Cursor at the start of line 2, the char before it is a line feed.
    b.set_cursor(6);
    assert_eq!(
        b.cursor_placement(1, 2, 2),
        Some(CursorPlacement { byte_index: 3, line: 1, after_newline: true })
    );
    // The layout holds only one line: the cursor on the second is not drawn.
    assert_eq!(b.cursor_placement(1, 2, 1), None);
    // The shown text ends before the cursor.
    assert_eq!(b.cursor_placement(0, 1, 5), None);
}

#[test]
fn cursor_placement_at_start_looks_at_first_char() {
    let b = Buffer::new_text("\nx");
    assert_eq!(
        b.cursor_placement(0, 2, 2),
        Some(CursorPlacement { byte_index: 0, line: 0, after_newline: true })
    );
    let e = Buffer::new();
    assert_eq!(
        e.cursor_placement(0, 1, 1),
        Some(CursorPlacement { byte_index: 0, line: 0, after_newline: false })
    );
}

#[test]
fn keys_edit_the_buffer() {
    let mut b = Buffer::new_text("ab");
    assert_eq!(b.handle_key(&EditKey::Right), Scroll::Keep);
    assert_eq!(b.handle_key(&EditKey::Text(vec!['x', 'y'])), Scroll::Keep);
    assert_eq!(b.to_string(), "axyb");
    assert_eq!(b.cursor(), 3);
    b.handle_key(&EditKey::Enter);
    assert_eq!(b.to_string(), "axy\nb");
    assert_eq!(b.cursor(), 4);
    b.handle_key(&EditKey::Delete);
    assert_eq!(b.to_string(), "axyb");
    b.handle_key(&EditKey::Left);
    assert_eq!(b.cursor(), 2);
    assert_eq!(b.handle_key(&EditKey::PageDown), Scroll::Down);
    assert_eq!(b.handle_key(&EditKey::PageUp), Scroll::Up);
    assert_eq!(b.handle_key(&EditKey::Other), Scroll::Keep);
    assert_eq!(b.to_string(), "axyb");
    assert_eq!(b.cursor(), 2);
}

#[test]
fn keys_move_between_lines() {
    let mut b = Buffer::new_text("ab\ncd");
    b.handle_key(&EditKey::Right);
    b.handle_key(&EditKey::Down);
    assert_eq!(b.cursor(), 4);
    b.handle_key(&EditKey::Up);
    assert_eq!(b.cursor(), 1);
    b.handle_key(&EditKey::Down);
    // From the last line the move down goes past the end of the text.
    b.handle_key(&EditKey::Down);
    assert_eq!(b.cursor(), 6);
    assert_eq!(b.to_string(), "ab\ncd");
    // Typing nothing and moving right need no cursor within the text.
    b.handle_key(&EditKey::Text(vec![]));
    assert_eq!(b.cursor(), 6);
    b.handle_key(&EditKey::Right);
    assert_eq!(b.cursor(), 5);
    b.handle_key(&EditKey::Up);
    assert_eq!(b.cursor(), 2);
}

#[test]
fn typing_then_deleting_restores_text() {
    let mut b = Buffer::new_text("hello");
    b.set_cursor(2);
    b.insert_chars(&"ñ✓x".chars().collect());
    assert_eq!(b.to_string(), "heñ✓xllo");
    assert_eq!(b.cursor(), 5);
    for _ in 0..3 {
        b.delete();
    }
    assert_eq!(b.to_string(), "hello");
    assert_eq!(b.cursor(), 2);
}
