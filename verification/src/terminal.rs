//! A simulated terminal driver.
//!
//! The real curses driver is a process-wide singleton whose state (screen
//! mode, color pairs, cursor appearance) is invisible to a caller. This
//! module models that state as plain values, so the session layer's
//! obligations — initialization and finalization stay balanced, color
//! pairs land in the right slots, a failed visibility change leaves the
//! mode untouched — can be stated and proved, and exercised by tests
//! against a terminal with chosen capabilities.

use vstd::prelude::*;

use crate::visibility::CursorVisibility;
use crate::visibility::i32_to_visibility;
use crate::visibility::visibility_code;
use crate::visibility::visibility_of_code;
use crate::visibility::visibility_to_i32;

verus! {

/// The code a curses driver returns from a call that succeeded.
pub const CURSES_OK: i32 = 0;

/// The code a curses driver returns from a call that failed.
pub const CURSES_ERR: i32 = -1;

/// Converts a driver result code into `true` for the success code, and
/// all other values into `false`.
pub fn to_bool(curses_bool: i32) -> (r: bool)
    ensures
        r == (curses_bool == CURSES_OK),
{
    if curses_bool == CURSES_OK {
        true
    } else {
        false
    }
}

/// How many color-pair slots the driver guarantees: pair 0 (reserved for
/// the default pair) plus the 64 assignable identifiers 1 through 64.
pub const PAIR_SLOT_COUNT: usize = 64;

/// A terminal driver whose observable state is explicit.
///
/// The capability fields (`has_colors`, `start_color_ok` and the three
/// `supports_*` flags) describe the terminal a session will find; the
/// remaining fields are the driver state a session reads and changes.
/// The two call counters exist so that a caller can observe that screen
/// initialization and finalization stay balanced.
pub struct SimTerminal {
    /// How many times the screen has been initialized.
    pub init_calls: u64,
    /// How many times the screen has been finalized.
    pub end_calls: u64,
    /// Whether the driver currently owns the screen.
    pub active: bool,
    /// Whether this terminal supports color at all.
    pub has_colors: bool,
    /// Whether this terminal's color mode can actually be started.
    pub start_color_ok: bool,
    /// Whether color mode has been started.
    pub color_started: bool,
    /// The registered color pairs: slot `i` holds the (foreground,
    /// background) codes registered under pair identifier `i + 1`.
    pub pair_table: Vec<Option<(i16, i16)>>,
    /// The cursor's current visibility mode.
    pub visibility: CursorVisibility,
    /// Whether this terminal supports an invisible cursor.
    pub supports_invisible: bool,
    /// Whether this terminal supports a normally visible cursor.
    pub supports_visible: bool,
    /// Whether this terminal supports a highly visible cursor.
    pub supports_highly_visible: bool,
    /// The pair identifier selected for subsequent output.
    pub current_pair: i16,
}

impl SimTerminal {
    /// The driver's structural invariant: the pair table has all its
    /// slots, finalizations never outnumber initializations, the two
    /// counts differ by at most one, and the screen is owned exactly when
    /// one initialization is still unmatched.
    pub open spec fn inv(self) -> bool {
        &&& self.pair_table@.len() == PAIR_SLOT_COUNT
        &&& self.end_calls <= self.init_calls
        &&& self.init_calls <= self.end_calls + 1
        &&& self.active == (self.init_calls == self.end_calls + 1)
    }

    /// Whether this terminal supports the given cursor visibility mode.
    pub open spec fn supports(self, vis: CursorVisibility) -> bool {
        match vis {
            CursorVisibility::Invisible => self.supports_invisible,
            CursorVisibility::Visible => self.supports_visible,
            CursorVisibility::HighlyVisible => self.supports_highly_visible,
        }
    }

    /// Whether the given integer names a visibility mode this terminal
    /// supports.
    pub open spec fn supports_code(self, code: int) -> bool {
        match visibility_of_code(code) {
            Some(vis) => self.supports(vis),
            None => false,
        }
    }

    /// A fresh terminal with the given capabilities: screen not owned, no
    /// initialization or finalization yet, color mode not started, no
    /// pair registered, cursor visible, the default pair selected.
    pub fn new(
        has_colors: bool,
        start_color_ok: bool,
        supports_invisible: bool,
        supports_visible: bool,
        supports_highly_visible: bool,
    ) -> (t: SimTerminal)
        ensures
            t.inv(),
            !t.active,
            t.init_calls == 0,
            t.end_calls == 0,
            t.has_colors == has_colors,
            t.start_color_ok == start_color_ok,
            !t.color_started,
            forall|i: int| 0 <= i < PAIR_SLOT_COUNT ==> t.pair_table@[i] is None,
            t.visibility == CursorVisibility::Visible,
            t.supports_invisible == supports_invisible,
            t.supports_visible == supports_visible,
            t.supports_highly_visible == supports_highly_visible,
            t.current_pair == 0,
    {
        let mut pair_table: Vec<Option<(i16, i16)>> = Vec::new();
        let mut i: usize = 0;
        while i < PAIR_SLOT_COUNT
            invariant
                i <= PAIR_SLOT_COUNT,
                pair_table@.len() == i,
                forall|j: int| 0 <= j < i ==> pair_table@[j] is None,
            decreases PAIR_SLOT_COUNT - i,
        {
            pair_table.push(None);
            i = i + 1;
        }
        SimTerminal {
            init_calls: 0,
            end_calls: 0,
            active: false,
            has_colors,
            start_color_ok,
            color_started: false,
            pair_table,
            visibility: CursorVisibility::Visible,
            supports_invisible,
            supports_visible,
            supports_highly_visible,
            current_pair: 0,
        }
    }

    /// The capability fields never change: they describe the terminal,
    /// not the session.
    pub open spec fn same_caps(pre: SimTerminal, post: SimTerminal) -> bool {
        &&& post.has_colors == pre.has_colors
        &&& post.start_color_ok == pre.start_color_ok
        &&& post.supports_invisible == pre.supports_invisible
        &&& post.supports_visible == pre.supports_visible
        &&& post.supports_highly_visible == pre.supports_highly_visible
    }

    /// Takes ownership of the screen. The screen must not already be
    /// owned: a second initialization before the matching finalization
    /// corrupts the driver's global state, and staying clear of it is the
    /// caller's obligation.
    pub fn initscr(&mut self)
        requires
            old(self).inv(),
            !old(self).active,
            old(self).init_calls < u64::MAX,
        ensures
            final(self).inv(),
            final(self).active,
            final(self).init_calls == old(self).init_calls + 1,
            final(self).end_calls == old(self).end_calls,
            Self::same_caps(*old(self), *final(self)),
            final(self).color_started == old(self).color_started,
            final(self).pair_table@ == old(self).pair_table@,
            final(self).visibility == old(self).visibility,
            final(self).current_pair == old(self).current_pair,
    {
        self.init_calls = self.init_calls + 1;
        self.active = true;
    }

    /// Releases the screen and restores the terminal to its pre-session
    /// state. The screen must be owned.
    pub fn endwin(&mut self)
        requires
            old(self).inv(),
            old(self).active,
        ensures
            final(self).inv(),
            !final(self).active,
            final(self).end_calls == old(self).end_calls + 1,
            final(self).init_calls == old(self).init_calls,
            Self::same_caps(*old(self), *final(self)),
            final(self).color_started == old(self).color_started,
            final(self).pair_table@ == old(self).pair_table@,
            final(self).visibility == old(self).visibility,
            final(self).current_pair == old(self).current_pair,
    {
        self.end_calls = self.end_calls + 1;
        self.active = false;
    }

    /// Whether the terminal supports color.
    pub fn has_colors(&self) -> (r: bool)
        ensures
            r == self.has_colors,
    {
        self.has_colors
    }

    /// Starts color mode. Succeeds exactly when the terminal's color mode
    /// can be started; on failure nothing changes.
    pub fn start_color(&mut self) -> (r: i32)
        requires
            old(self).inv(),
        ensures
            final(self).inv(),
            r == if old(self).start_color_ok {
                CURSES_OK
            } else {
                CURSES_ERR
            },
            final(self).color_started == (old(self).color_started || old(self).start_color_ok),
            final(self).active == old(self).active,
            final(self).init_calls == old(self).init_calls,
            final(self).end_calls == old(self).end_calls,
            Self::same_caps(*old(self), *final(self)),
            final(self).pair_table@ == old(self).pair_table@,
            final(self).visibility == old(self).visibility,
            final(self).current_pair == old(self).current_pair,
    {
        if self.start_color_ok {
            self.color_started = true;
            CURSES_OK
        } else {
            CURSES_ERR
        }
    }

    /// Registers the colors `(fg, bg)` under the given pair identifier.
    /// Succeeds exactly when color mode is started, the identifier names
    /// an assignable slot (1 through 64 — identifier 0 is reserved, and a
    /// terminal is only guaranteed that many), and both color codes are in
    /// range; on failure the table is untouched.
    pub fn init_pair(&mut self, pair_index: i16, fg: i16, bg: i16) -> (r: i32)
        requires
            old(self).inv(),
        ensures
            final(self).inv(),
            ({
                let ok = old(self).color_started && 1 <= pair_index <= PAIR_SLOT_COUNT && 0 <= fg
                    <= 7 && 0 <= bg <= 7;
                &&& r == if ok {
                    CURSES_OK
                } else {
                    CURSES_ERR
                }
                &&& (ok ==> final(self).pair_table@ == old(self).pair_table@.update(
                    pair_index - 1,
                    Some((fg, bg)),
                ))
                &&& (!ok ==> final(self).pair_table@ == old(self).pair_table@)
            }),
            final(self).active == old(self).active,
            final(self).init_calls == old(self).init_calls,
            final(self).end_calls == old(self).end_calls,
            Self::same_caps(*old(self), *final(self)),
            final(self).color_started == old(self).color_started,
            final(self).visibility == old(self).visibility,
            final(self).current_pair == old(self).current_pair,
    {
        if self.color_started && 1 <= pair_index && pair_index as usize <= PAIR_SLOT_COUNT && 0
            <= fg && fg <= 7 && 0 <= bg && bg <= 7 {
            let slot = (pair_index - 1) as usize;
            self.pair_table.set(slot, Some((fg, bg)));
            CURSES_OK
        } else {
            CURSES_ERR
        }
    }

    /// Changes the cursor's visibility mode. If the code names a mode the
    /// terminal supports, the mode is changed and the code of the
    /// previously active mode is returned; otherwise the failure code is
    /// returned and the active mode is left exactly as it was.
    pub fn curs_set(&mut self, visibility: i32) -> (r: i32)
        requires
            old(self).inv(),
        ensures
            final(self).inv(),
            old(self).supports_code(visibility as int) ==> {
                &&& r == visibility_code(old(self).visibility)
                &&& Some(final(self).visibility) == visibility_of_code(visibility as int)
            },
            !old(self).supports_code(visibility as int) ==> {
                &&& r == CURSES_ERR
                &&& final(self).visibility == old(self).visibility
            },
            final(self).active == old(self).active,
            final(self).init_calls == old(self).init_calls,
            final(self).end_calls == old(self).end_calls,
            Self::same_caps(*old(self), *final(self)),
            final(self).color_started == old(self).color_started,
            final(self).pair_table@ == old(self).pair_table@,
            final(self).current_pair == old(self).current_pair,
    {
        let requested = i32_to_visibility(visibility);
        match requested {
            Some(vis) => {
                let supported = match vis {
                    CursorVisibility::Invisible => self.supports_invisible,
                    CursorVisibility::Visible => self.supports_visible,
                    CursorVisibility::HighlyVisible => self.supports_highly_visible,
                };
                if supported {
                    let previous = visibility_to_i32(self.visibility);
                    self.visibility = vis;
                    previous
                } else {
                    CURSES_ERR
                }
            },
            None => CURSES_ERR,
        }
    }

    /// Selects the color pair used for subsequent output.
    pub fn color_set(&mut self, pair_index: i16)
        requires
            old(self).inv(),
        ensures
            final(self).inv(),
            final(self).current_pair == pair_index,
            final(self).active == old(self).active,
            final(self).init_calls == old(self).init_calls,
            final(self).end_calls == old(self).end_calls,
            Self::same_caps(*old(self), *final(self)),
            final(self).color_started == old(self).color_started,
            final(self).pair_table@ == old(self).pair_table@,
            final(self).visibility == old(self).visibility,
    {
        self.current_pair = pair_index;
    }
}

/// Converts a coordinate in the bottom-left-origin ("cartesian") space a
/// caller may prefer into the top-left-origin row the driver addresses:
/// on a screen of `row_count` rows, cartesian height `y` is row
/// `row_count - (y + 1)`. The column is unchanged by the flip.
pub fn xy_to_row(row_count: i32, y: i32) -> (row: i32)
    requires
        y < i32::MAX,
        i32::MIN <= row_count - (y + 1) <= i32::MAX,
    ensures
        row == row_count - (y + 1),
{
    row_count - (y + 1)
}

} // verus!
