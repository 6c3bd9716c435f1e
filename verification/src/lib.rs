//! A library for full-screen terminal programs on VT100-family terminals.
//! Its two verified cores are the incremental input parser, which turns raw
//! escape-sequence bytes into keypress events, and the style and screen
//! pipeline, which resolves style strings to attributes and renders a cell
//! grid as a minimal escape-sequence stream.

use vstd::prelude::*;

pub mod color;
pub mod emitter;
pub mod filters;
pub mod key_bindings;
pub mod key_press;
pub mod key_table;
pub mod keys;
pub mod output;
pub mod parser;
pub mod render;
pub mod screen;
pub mod style;
pub mod util;

pub use key_press::KeyPress;
pub use output::{Output, Size};
pub use screen::{Char, Screen, WritePosition};

verus! {

/// A coordinate on the screen grid, in columns (`x`) and rows (`y`).
#[derive(Debug, Clone, Copy, PartialEq, Eq, Structural)]
pub struct Point {
    pub x: usize,
    pub y: usize,
}

impl Point {
    pub fn new(x: usize, y: usize) -> (r: Self)
        ensures
            r.x == x,
            r.y == y,
    {
        Point { x, y }
    }
}

impl Default for Point {
    fn default() -> (r: Self)
        ensures
            r.x == 0 && r.y == 0,
    {
        Point { x: 0, y: 0 }
    }
}

} // verus!
