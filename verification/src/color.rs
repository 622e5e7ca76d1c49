//! The color of a single pixel.

use vstd::prelude::*;

verus! {

/// A pixel color: a named base color, a 24-bit RGB triple, an 8-bit ANSI
/// palette index, or the terminal's own default (`Reset`).
///
/// `Reset` is a sentinel meaning "inherit whatever the terminal shows"; it is
/// used by the compositor for cells it does not own, and writing it into the
/// pixel buffer is a caller error.
#[derive(Clone, Copy, Debug, PartialEq, Eq, Structural)]
pub enum Color {
    Reset,
    Black,
    DarkGrey,
    Red,
    DarkRed,
    Green,
    DarkGreen,
    Yellow,
    DarkYellow,
    Blue,
    DarkBlue,
    Magenta,
    DarkMagenta,
    Cyan,
    DarkCyan,
    White,
    Grey,
    Rgb { r: u8, g: u8, b: u8 },
    AnsiValue(u8),
}

} // verus!
