//! A text console on a memory-mapped grid of character cells: 25 rows of 80
//! cells, each a character byte and an attribute byte, written through
//! volatile accesses only.
//!
//! `color` and `cell` hold the value types and their packing, `buffer` the
//! grid and its volatile accesses, `screen` the mathematical model of the
//! console, and `writer` the console itself.

pub mod buffer;
pub mod cell;
pub mod color;
pub mod screen;
pub mod writer;

pub use buffer::{Buffer, BUFFER_HEIGHT, BUFFER_WIDTH};
pub use cell::ScreenChar;
pub use color::{Color, ColorCode};
pub use writer::{print_something, Writer};
