//! Cursor visibility modes and their driver codes.
//!
//! A curses driver selects the cursor's appearance with the integers 0
//! (invisible), 1 (normal) and 2 (highly visible), and reports the
//! previously active mode with the same codes. The functions here
//! translate between the `CursorVisibility` enumeration and those codes.

use vstd::prelude::*;

verus! {

/// The three options you can pass to a cursor-visibility change. Note that
/// not all terminals support all visibility modes.
#[derive(PartialEq, Eq, Clone, Copy, Structural, Debug)]
pub enum CursorVisibility {
    /// Makes the cursor invisible.
    Invisible,
    /// Makes the cursor visible in the normal way.
    Visible,
    /// Makes the cursor "highly" visible in some way.
    HighlyVisible,
}

/// The integer code of a visibility mode: the driver's own constant for it.
pub open spec fn visibility_code(vis: CursorVisibility) -> int {
    match vis {
        CursorVisibility::Invisible => 0,
        CursorVisibility::Visible => 1,
        CursorVisibility::HighlyVisible => 2,
    }
}

/// The visibility mode a code names, if the code is in range.
pub open spec fn visibility_of_code(val: int) -> Option<CursorVisibility> {
    if val == 0 {
        Some(CursorVisibility::Invisible)
    } else if val == 1 {
        Some(CursorVisibility::Visible)
    } else if val == 2 {
        Some(CursorVisibility::HighlyVisible)
    } else {
        None
    }
}

/// Converts a visibility mode to the `i32` code the driver expects.
pub fn visibility_to_i32(vis: CursorVisibility) -> (r: i32)
    ensures
        r == visibility_code(vis),
{
    match vis {
        CursorVisibility::Invisible => 0,
        CursorVisibility::Visible => 1,
        CursorVisibility::HighlyVisible => 2,
    }
}

/// Converts an `i32` code reported by the driver to the visibility mode it
/// names. Fails if the code is outside the range 0 to 2 (inclusive), as it
/// is when the driver reports that a change was not possible.
pub fn i32_to_visibility(val: i32) -> (r: Option<CursorVisibility>)
    ensures
        r == visibility_of_code(val as int),
{
    match val {
        0 => Some(CursorVisibility::Invisible),
        1 => Some(CursorVisibility::Visible),
        2 => Some(CursorVisibility::HighlyVisible),
        _ => None,
    }
}

/// Decoding a mode's own code yields that mode back: the code assignment
/// is a bijection between the three modes and the integers 0 through 2.
pub proof fn lemma_visibility_code_round_trip(vis: CursorVisibility)
    ensures
        visibility_of_code(visibility_code(vis)) == Some(vis),
{
}

} // verus!
