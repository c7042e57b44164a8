# wingspan_buffer

A text buffer with a cursor, for a small editor. The text is kept in a
`ropey::Rope`; the cursor is a char position in it.

- `src/buffer.rs`: the buffer, its operations (insert, delete, the four cursor
  moves) and their contracts over the buffer's view, a pair of text and cursor.
- `src/lines.rs`: what a line is (the rope's line breaks), line indices and
  line starts, with the lemmas about them.
- `src/encoding.rs`: UTF-8 lengths.
- `src/screen.rs`: which lines a view shows and where it draws the cursor.
- `src/keys.rs`: what a key press does to the buffer.
- `src/laws.rs`: laws that relate the operations.
- `src/rope_text.rs`: the rope as verified code sees it: the name of its
  contents and one wrapper per rope method used.
- `app/`: the druid program and widgets: key events, pixels and painting.
