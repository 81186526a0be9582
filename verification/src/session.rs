//! The terminal session: a single-owner handle whose initialization and
//! finalization are proved to stay balanced.
//!
//! A `Session` is created by `initialize_system`, which takes the screen
//! over and, when the terminal supports color, registers the full 8x8
//! grid of color pairs. It is destroyed by `teardown`, which consumes the
//! handle — so a session cannot be finalized twice — and hands the
//! terminal back with exactly one more finalization than before.
//! `run_capturing_failure` wraps a whole lifecycle around the outcome of
//! caller-supplied work, turning an abnormal ending into an ordinary
//! result while still finalizing the terminal exactly once.

use vstd::prelude::*;

use vstd::arithmetic::div_mod::lemma_fundamental_div_mod_converse;

use crate::pair::ColorPair;
use crate::terminal::PAIR_SLOT_COUNT;
use crate::terminal::SimTerminal;
use crate::terminal::to_bool;
use crate::visibility::CursorVisibility;
use crate::visibility::i32_to_visibility;
use crate::visibility::lemma_visibility_code_round_trip;
use crate::visibility::visibility_to_i32;

verus! {

/// Whether the terminal's pair table holds the full 8x8 registration: for
/// every foreground code `fg` and background code `bg`, the slot of pair
/// identifier `1 + 8 * fg + bg` holds exactly `(fg, bg)`.
pub open spec fn fully_registered(t: SimTerminal) -> bool {
    &&& t.pair_table@.len() == PAIR_SLOT_COUNT
    &&& forall|i: int|
        0 <= i < PAIR_SLOT_COUNT ==> t.pair_table@[i] == Some(((i / 8) as i16, (i % 8) as i16))
}

/// What one complete session lifecycle (initialize, then tear down) does
/// to a terminal: exactly one more initialization and exactly one more
/// finalization, the screen handed back, the terminal's capabilities
/// untouched — and, on a terminal whose color mode starts, the pair table
/// left fully registered no matter what it held before.
pub open spec fn session_run_post(pre: SimTerminal, post: SimTerminal) -> bool {
    &&& post.inv()
    &&& !post.active
    &&& post.init_calls == pre.init_calls + 1
    &&& post.end_calls == pre.end_calls + 1
    &&& SimTerminal::same_caps(pre, post)
    &&& (pre.has_colors && pre.start_color_ok) ==> fully_registered(post)
    &&& !(pre.has_colors && pre.start_color_ok) ==> post.pair_table@ == pre.pair_table@
}

/// How the caller-supplied part of a session ended: a normal return
/// carrying its value, or an abnormal (unwind-style) exit whose payload
/// either was string-like — its text is kept — or was anything else.
pub enum RunEnding<R> {
    /// The caller's function returned normally with this value.
    Normal(R),
    /// The caller's function exited abnormally with a string-like payload.
    PanicText(String),
    /// The caller's function exited abnormally with some other payload.
    PanicOpaque,
}

/// The report a capturing entry point hands back for a given ending: the
/// value on a normal return, otherwise the failure with its message —
/// present exactly when the abnormal payload was string-like.
pub open spec fn report_of_ending_spec<R>(ending: RunEnding<R>) -> Result<R, Option<String>> {
    match ending {
        RunEnding::Normal(v) => Ok(v),
        RunEnding::PanicText(s) => Err(Some(s)),
        RunEnding::PanicOpaque => Err(None),
    }
}

/// Converts how the caller-supplied work ended into the report the
/// capturing entry point returns. The abnormal ending is not re-raised:
/// it becomes an ordinary value the caller can observe and log.
pub fn report_of_ending<R>(ending: RunEnding<R>) -> (r: Result<R, Option<String>>)
    ensures
        r == report_of_ending_spec(ending),
{
    match ending {
        RunEnding::Normal(v) => Ok(v),
        RunEnding::PanicText(s) => Err(Some(s)),
        RunEnding::PanicOpaque => Err(None),
    }
}

/// This is a handle to all your fun curses functionality.
///
/// A `Session` owns the live terminal: it is created only by
/// `initialize_system` and destroyed only by `teardown`, which consumes
/// it, so the driver's initialization and finalization cannot get out of
/// balance through this handle. Never hold two sessions at once: the
/// driver behind them is a process-wide singleton.
pub struct Session {
    term: SimTerminal,
    color_support: bool,
}

impl Session {
    /// The terminal as this session sees it.
    pub closed spec fn terminal(self) -> SimTerminal {
        self.term
    }

    /// Whether this session drives its terminal in color.
    pub closed spec fn has_color_support(self) -> bool {
        self.color_support
    }

    /// A live session: the terminal is in a consistent state, the screen
    /// is owned, and color is only claimed where color mode was started.
    pub open spec fn wf(self) -> bool {
        &&& self.terminal().inv()
        &&& self.terminal().active
        &&& self.has_color_support() ==> self.terminal().color_started
    }

    /// Initializes the curses system so that you can begin using curses.
    /// This isn't called "new" because you shouldn't be making more than
    /// one session value at the same time ever.
    ///
    /// Takes the screen over. If the terminal supports colors they are
    /// activated, and color pairs are registered for all 64 foreground
    /// and background combinations — each under its own identifier, so a
    /// session's table never depends on what an earlier session left.
    pub fn initialize_system(term: SimTerminal) -> (s: Session)
        requires
            term.inv(),
            !term.active,
            term.init_calls < u64::MAX,
        ensures
            s.wf(),
            s.terminal().init_calls == term.init_calls + 1,
            s.terminal().end_calls == term.end_calls,
            SimTerminal::same_caps(term, s.terminal()),
            s.has_color_support() == (term.has_colors && term.start_color_ok),
            s.has_color_support() ==> fully_registered(s.terminal()),
            !s.has_color_support() ==> s.terminal().pair_table@ == term.pair_table@,
            s.terminal().visibility == term.visibility,
            s.terminal().current_pair == term.current_pair,
    {
        let mut t = term;
        t.initscr();
        let color_support = if t.has_colors() {
            to_bool(t.start_color())
        } else {
            false
        };
        if color_support {
            let mut fg: i16 = 0;
            while fg < 8
                invariant
                    0 <= fg <= 8,
                    t.inv(),
                    t.active,
                    t.color_started,
                    t.init_calls == term.init_calls + 1,
                    t.end_calls == term.end_calls,
                    SimTerminal::same_caps(term, t),
                    t.visibility == term.visibility,
                    t.current_pair == term.current_pair,
                    forall|i: int|
                        0 <= i < 8 * fg ==> t.pair_table@[i] == Some(
                            ((i / 8) as i16, (i % 8) as i16),
                        ),
                decreases 8 - fg,
            {
                let mut bg: i16 = 0;
                while bg < 8
                    invariant
                        0 <= fg < 8,
                        0 <= bg <= 8,
                        t.inv(),
                        t.active,
                        t.color_started,
                        t.init_calls == term.init_calls + 1,
                        t.end_calls == term.end_calls,
                        SimTerminal::same_caps(term, t),
                        t.visibility == term.visibility,
                        t.current_pair == term.current_pair,
                        forall|i: int|
                            0 <= i < 8 * fg + bg ==> t.pair_table@[i] == Some(
                                ((i / 8) as i16, (i % 8) as i16),
                            ),
                    decreases 8 - bg,
                {
                    t.init_pair(ColorPair::fgbg_pairid(fg, bg), fg, bg);
                    proof {
                        lemma_fundamental_div_mod_converse(
                            8 * fg + bg,
                            8,
                            fg as int,
                            bg as int,
                        );
                    }
                    bg = bg + 1;
                }
                fg = fg + 1;
            }
        }
        Session { term: t, color_support }
    }

    /// Restores the terminal to its pre-session state, exactly once: the
    /// session is consumed, so no second finalization can go through it,
    /// and no ordinary control flow can reach past a live session without
    /// one. The terminal is handed back for inspection or for a later,
    /// fully independent session.
    pub fn teardown(self) -> (t: SimTerminal)
        requires
            self.wf(),
        ensures
            t.inv(),
            !t.active,
            t.end_calls == self.terminal().end_calls + 1,
            t.init_calls == self.terminal().init_calls,
            SimTerminal::same_caps(self.terminal(), t),
            t.color_started == self.terminal().color_started,
            t.pair_table@ == self.terminal().pair_table@,
            t.visibility == self.terminal().visibility,
            t.current_pair == self.terminal().current_pair,
    {
        let Session { mut term, color_support: _ } = self;
        term.endwin();
        term
    }

    /// Checks if the current terminal supports the use of colors.
    pub fn is_color_terminal(&mut self) -> (r: bool)
        ensures
            r == old(self).has_color_support(),
            *final(self) == *old(self),
    {
        self.color_support
    }

    /// Attempts to assign a new cursor visibility. If this is successful
    /// you get a `Some` back with the old setting inside. If this fails —
    /// not all terminals support all modes — you get a `None` back, and
    /// the previously active mode is left exactly as it was.
    pub fn set_cursor_visibility(&mut self, vis: CursorVisibility) -> (r: Option<
        CursorVisibility,
    >)
        requires
            old(self).wf(),
        ensures
            final(self).wf(),
            final(self).has_color_support() == old(self).has_color_support(),
            old(self).terminal().supports(vis) ==> {
                &&& r == Some(old(self).terminal().visibility)
                &&& final(self).terminal().visibility == vis
            },
            !old(self).terminal().supports(vis) ==> {
                &&& r is None
                &&& final(self).terminal().visibility == old(self).terminal().visibility
            },
            final(self).terminal().init_calls == old(self).terminal().init_calls,
            final(self).terminal().end_calls == old(self).terminal().end_calls,
            final(self).terminal().active == old(self).terminal().active,
            SimTerminal::same_caps(old(self).terminal(), final(self).terminal()),
            final(self).terminal().color_started == old(self).terminal().color_started,
            final(self).terminal().pair_table@ == old(self).terminal().pair_table@,
            final(self).terminal().current_pair == old(self).terminal().current_pair,
    {
        proof {
            lemma_visibility_code_round_trip(vis);
            lemma_visibility_code_round_trip(self.term.visibility);
        }
        let result = self.term.curs_set(visibility_to_i32(vis));
        i32_to_visibility(result)
    }

    /// Sets the current color pair of the window. Output at any location
    /// will use this pair until a new pair is set. Does nothing if the
    /// terminal does not support colors in the first place.
    pub fn set_color_pair(&mut self, pair: ColorPair)
        requires
            old(self).wf(),
        ensures
            final(self).wf(),
            final(self).has_color_support() == old(self).has_color_support(),
            old(self).has_color_support() ==> final(self).terminal().current_pair == pair.id(),
            !old(self).has_color_support() ==> *final(self) == *old(self),
            final(self).terminal().init_calls == old(self).terminal().init_calls,
            final(self).terminal().end_calls == old(self).terminal().end_calls,
            final(self).terminal().active == old(self).terminal().active,
            SimTerminal::same_caps(old(self).terminal(), final(self).terminal()),
            final(self).terminal().color_started == old(self).terminal().color_started,
            final(self).terminal().pair_table@ == old(self).terminal().pair_table@,
            final(self).terminal().visibility == old(self).terminal().visibility,
    {
        if self.color_support {
            self.term.color_set(pair.pair_id());
        }
    }
}

/// Wraps one whole session lifecycle around caller work whose ending is
/// already at hand, and converts that ending into an ordinary result.
///
/// Whether the work returned normally or exited abnormally, the terminal
/// is initialized and finalized exactly once before this returns. A
/// string-like abnormal payload is preserved as the failure message; any
/// other payload yields an absent message. The abnormal ending is never
/// re-raised, so the caller observes it with a working terminal
/// restored. To run the work itself between initialization and teardown,
/// use `run_session_capturing`.
pub fn run_capturing_failure<R>(term: SimTerminal, ending: RunEnding<R>) -> (r: (
    SimTerminal,
    Result<R, Option<String>>,
))
    requires
        term.inv(),
        !term.active,
        term.init_calls < u64::MAX,
    ensures
        session_run_post(term, r.0),
        r.1 == report_of_ending_spec(ending),
{
    let session = Session::initialize_system(term);
    // The caller's work happens against the live session; `ending` is how
    // it came out. Teardown follows on every path before this returns.
    let term = session.teardown();
    (term, report_of_ending(ending))
}

/// What well-behaved caller work does to the session it is handed: the
/// session comes back still live, the work neither initialized nor
/// finalized the screen on its own, and the terminal's capabilities and
/// registered pairs are as the session's own operations leave them —
/// untouched. Every combination of this library's session operations
/// maintains all of it.
pub open spec fn preserves_session(pre: Session, post: Session) -> bool {
    &&& post.wf()
    &&& post.terminal().init_calls == pre.terminal().init_calls
    &&& post.terminal().end_calls == pre.terminal().end_calls
    &&& SimTerminal::same_caps(pre.terminal(), post.terminal())
    &&& post.terminal().pair_table@ == pre.terminal().pair_table@
}

/// Runs caller-supplied work inside one whole session lifecycle: the
/// terminal is initialized, the work receives the live session and hands
/// it back together with how it ended, and the terminal is finalized
/// exactly once before this returns — the report of the work's own
/// ending is what comes back, never a re-raised failure.
///
/// The work must accept any live session, and must neither initialize
/// nor finalize the screen itself; everything this library's session
/// operations can do to the session is fine.
pub fn run_session_capturing<R, F: FnOnce(Session) -> (Session, RunEnding<R>)>(
    term: SimTerminal,
    user_function: F,
) -> (r: (SimTerminal, Result<R, Option<String>>))
    requires
        term.inv(),
        !term.active,
        term.init_calls < u64::MAX,
        forall|s: Session| s.wf() ==> call_requires(user_function, (s,)),
        forall|s: Session, out: (Session, RunEnding<R>)|
            call_ensures(user_function, (s,), out) ==> preserves_session(s, out.0),
    ensures
        session_run_post(term, r.0),
        exists|s: Session, out: (Session, RunEnding<R>)|
            call_ensures(user_function, (s,), out) && r.1 == report_of_ending_spec(out.1),
{
    let session = Session::initialize_system(term);
    let ghost entry = session;
    let (session, ending) = user_function(session);
    let ghost outcome = (session, ending);
    proof {
        assert(call_ensures(user_function, (entry,), outcome));
        assert(preserves_session(entry, outcome.0));
    }
    let after = session.teardown();
    let report = report_of_ending(ending);
    (after, report)
}

/// Two sequential session lifecycles are independent: each balances its
/// own initialization with exactly one finalization, and on a color
/// terminal each run leaves the pair table fully registered — the second
/// run's table owes nothing to what the first run did or left behind.
pub proof fn lemma_sequential_sessions_independent(
    t0: SimTerminal,
    t1: SimTerminal,
    t2: SimTerminal,
)
    requires
        session_run_post(t0, t1),
        session_run_post(t1, t2),
    ensures
        t1.init_calls == t0.init_calls + 1,
        t1.end_calls == t0.end_calls + 1,
        t2.init_calls == t1.init_calls + 1,
        t2.end_calls == t1.end_calls + 1,
        (t0.has_colors && t0.start_color_ok) ==> fully_registered(t1) && fully_registered(t2),
{
}

} // verus!
