//! The engine of a viewer for one text document on a character terminal.
//!
//! - [`rows`]: the document, a sequence of lines split from a text.
//! - [`cursor`]: the cursor, the window and the scroll offset, and how moves
//!   and scrolling change them.
//! - [`keys`]: key presses and what each one asks for.
//! - [`contents`]: the buffer in which a frame is gathered.
//! - [`ansi`]: the control sequences of a frame, written by crossterm.
//! - [`output`]: the composer, which holds the document and the cursor, deals
//!   with key presses and composes the frame of each refresh.
//! - [`strings`]: what is assumed of std's strings.
//!
//! The library does no input or output: a program hands it the text, the
//! window's size and the key presses, and writes the frames it gets back.

pub mod ansi;
pub mod contents;
pub mod cursor;
pub mod keys;
pub mod output;
pub mod rows;
pub mod strings;
