//! Color pairs and their driver identifiers.
//!
//! A curses driver refers to a registered (foreground, background) color
//! combination by a small integer, the pair identifier. Identifier 0 is
//! reserved by the driver for its default white-on-black pair and is never
//! assigned here; the 8x8 grid of color combinations is mapped onto the
//! identifiers 1 through 64, and the mapping is proved injective.

use vstd::prelude::*;

use crate::color::Color;
use crate::color::color_index;
use crate::color::color_to_i16;
use crate::color::lemma_color_index_injective;

verus! {

/// The identifier assigned to the pair of foreground color code `fg` and
/// background color code `bg`. Pair 0 is reserved by the driver, so
/// assigned identifiers start at 1.
pub open spec fn pair_id_of(fg: int, bg: int) -> int {
    1 + 8 * fg + bg
}

/// A color pair for a character cell on the screen.
#[derive(PartialEq, Eq, Clone, Copy, Structural, Debug)]
pub struct ColorPair(i16);

impl ColorPair {
    /// The pair identifier this value carries.
    pub closed spec fn id(self) -> int {
        self.0 as int
    }

    /// Converts a foreground and background color into the ColorPair to use.
    pub fn from(foreground: Color, background: Color) -> (r: Self)
        ensures
            r.id() == pair_id_of(color_index(foreground), color_index(background)),
            1 <= r.id() <= 64,
    {
        let fgi = color_to_i16(foreground);
        let bgi = color_to_i16(background);
        ColorPair(ColorPair::fgbg_pairid(fgi, bgi))
    }

    /// The "low level" conversion using `i16` color codes. Color pair 0 is
    /// white on black but cannot be assigned to, so assigned identifiers
    /// begin at 1 and the 8x8 code grid fills the range 1 through 64.
    pub fn fgbg_pairid(fg: i16, bg: i16) -> (r: i16)
        requires
            0 <= fg <= 7,
            0 <= bg <= 7,
        ensures
            r == pair_id_of(fg as int, bg as int),
            1 <= r <= 64,
    {
        1 + (8 * fg + bg)
    }

    /// The raw identifier, in the form handed to the driver.
    pub fn pair_id(self) -> (r: i16)
        ensures
            r == self.id(),
    {
        self.0
    }
}

/// Every pair of in-range color codes gets an identifier in the driver's
/// usable range 1 through 64; identifier 0 is never produced.
pub proof fn lemma_pair_id_in_range(fg: int, bg: int)
    requires
        0 <= fg <= 7,
        0 <= bg <= 7,
    ensures
        1 <= pair_id_of(fg, bg) <= 64,
{
}

/// Distinct pairs of in-range color codes get distinct identifiers.
pub proof fn lemma_pair_id_injective(fg1: int, bg1: int, fg2: int, bg2: int)
    requires
        0 <= fg1 <= 7,
        0 <= bg1 <= 7,
        0 <= fg2 <= 7,
        0 <= bg2 <= 7,
        pair_id_of(fg1, bg1) == pair_id_of(fg2, bg2),
    ensures
        fg1 == fg2,
        bg1 == bg2,
{
}

/// Every identifier in the assignable range 1 through 64 is hit by some
/// pair of in-range color codes: together with injectivity, the encoding
/// is a bijection between the 8x8 code grid and the range 1 through 64.
pub proof fn lemma_pair_id_surjective(id: int)
    requires
        1 <= id <= 64,
    ensures
        exists|fg: int, bg: int|
            0 <= fg <= 7 && 0 <= bg <= 7 && pair_id_of(fg, bg) == id,
{
    let fg = (id - 1) / 8;
    let bg = (id - 1) % 8;
    vstd::arithmetic::div_mod::lemma_fundamental_div_mod(id - 1, 8);
    assert(0 <= fg <= 7 && 0 <= bg <= 7 && pair_id_of(fg, bg) == id);
}

/// No two distinct (foreground, background) color combinations collide:
/// over the full 8x8 grid the encoding into pair identifiers is injective.
pub proof fn lemma_encode_injective(fg1: Color, bg1: Color, fg2: Color, bg2: Color)
    requires
        pair_id_of(color_index(fg1), color_index(bg1)) == pair_id_of(
            color_index(fg2),
            color_index(bg2),
        ),
    ensures
        fg1 == fg2,
        bg1 == bg2,
{
    lemma_pair_id_injective(
        color_index(fg1),
        color_index(bg1),
        color_index(fg2),
        color_index(bg2),
    );
    lemma_color_index_injective(fg1, fg2);
    lemma_color_index_injective(bg1, bg2);
}

} // verus!
