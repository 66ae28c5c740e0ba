//! The editing engine of a small terminal text editor.
//!
//! The crate keeps a cursor consistent across three coordinate spaces
//! (rows and columns of the buffer, rows of the viewport, and the position
//! of the terminal cursor) while lines change length and the viewport
//! scrolls, and it drives the save workflow. It performs no input or
//! output: every step takes plain values and answers with the next state
//! and a description of what has to be shown.

pub mod buffer;
pub mod editor;
pub mod input;
pub mod movement;
pub mod text;
pub mod viewport;
