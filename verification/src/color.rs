//! The eight standard curses colors and their integer codes.
//!
//! A curses driver names its colors with the integers 0 through 7. The
//! functions here translate between the `Color` enumeration and those
//! codes, and the translation is proved to be a bijection: every color
//! has exactly one code, and every code in range names exactly one color.

use vstd::prelude::*;

verus! {

/// The curses color constants.
///
/// Curses supports eight colors, and each character cell on the screen
/// carries one "color pair": a foreground and background drawn from this
/// set. Each color corresponds to a fixed integer code between 0 and 7,
/// matching the constants the terminal driver itself uses.
#[derive(PartialEq, Eq, Clone, Copy, Structural, Debug)]
pub enum Color {
    /// Black
    Black,
    /// Red
    Red,
    /// Green
    Green,
    /// Yellow
    Yellow,
    /// Blue
    Blue,
    /// Magenta
    Magenta,
    /// Cyan
    Cyan,
    /// White
    White,
}

/// The integer code of a color: the driver's own constant for it.
pub open spec fn color_index(color: Color) -> int {
    match color {
        Color::Black => 0,
        Color::Red => 1,
        Color::Green => 2,
        Color::Yellow => 3,
        Color::Blue => 4,
        Color::Magenta => 5,
        Color::Cyan => 6,
        Color::White => 7,
    }
}

/// The color a code names, if the code is in range.
pub open spec fn color_of_index(val: int) -> Option<Color> {
    if val == 0 {
        Some(Color::Black)
    } else if val == 1 {
        Some(Color::Red)
    } else if val == 2 {
        Some(Color::Green)
    } else if val == 3 {
        Some(Color::Yellow)
    } else if val == 4 {
        Some(Color::Blue)
    } else if val == 5 {
        Some(Color::Magenta)
    } else if val == 6 {
        Some(Color::Cyan)
    } else if val == 7 {
        Some(Color::White)
    } else {
        None
    }
}

/// Converts a `Color` to the `i16` associated with it.
pub fn color_to_i16(color: Color) -> (r: i16)
    ensures
        r == color_index(color),
{
    match color {
        Color::Black => 0,
        Color::Red => 1,
        Color::Green => 2,
        Color::Yellow => 3,
        Color::Blue => 4,
        Color::Magenta => 5,
        Color::Cyan => 6,
        Color::White => 7,
    }
}

/// Converts an `i16` to the `Color` associated with it. Fails if the input
/// is outside the range 0 to 7 (inclusive).
pub fn i16_to_color(val: i16) -> (r: Option<Color>)
    ensures
        r == color_of_index(val as int),
{
    match val {
        0 => Some(Color::Black),
        1 => Some(Color::Red),
        2 => Some(Color::Green),
        3 => Some(Color::Yellow),
        4 => Some(Color::Blue),
        5 => Some(Color::Magenta),
        6 => Some(Color::Cyan),
        7 => Some(Color::White),
        _ => None,
    }
}

/// Decoding a color's own code yields that color back: the code assignment
/// is a bijection between the eight colors and the integers 0 through 7,
/// so the round trip through the driver's constants is the identity.
pub proof fn lemma_color_index_round_trip(color: Color)
    ensures
        color_of_index(color_index(color)) == Some(color),
{
}

/// No two distinct colors share a code.
pub proof fn lemma_color_index_injective(a: Color, b: Color)
    requires
        color_index(a) == color_index(b),
    ensures
        a == b,
{
}

/// Every code in range names a color, and encoding that color yields the
/// code back: together with the other round trip, the code assignment is
/// a bijection between the eight colors and the integers 0 through 7.
pub proof fn lemma_color_of_index_round_trip(i: int)
    requires
        0 <= i <= 7,
    ensures
        color_of_index(i) matches Some(c) && color_index(c) == i,
{
}

} // verus!
