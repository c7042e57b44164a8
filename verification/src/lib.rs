//! A text buffer with a cursor, kept in a rope.
//!
//! The text lives in a `ropey::Rope`; the cursor is a char position in it,
//! normally between `0` and the number of chars (both ends included). A move
//! down from the last line can take it past the end; a move right brings it
//! back, and the operations that read the text at the cursor ask that it lie
//! within the text.

pub mod encoding;
pub mod keys;
pub mod laws;
pub mod lines;
mod rope_text;
pub mod screen;

pub mod buffer;

pub use buffer::Buffer;
