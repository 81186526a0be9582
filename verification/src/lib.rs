//! A simplified, single-window model of a curses terminal session.
//!
//! The library has two halves. The color half maps the eight standard
//! terminal colors and their foreground/background pairings onto the
//! compact integer identifiers a curses driver expects; the mapping is a
//! proved bijection. The session half models the lifecycle of a terminal
//! session over a driver whose observable state is tracked explicitly,
//! and proves that initialization and finalization stay balanced no
//! matter how the session ends.

mod color;
mod pair;
mod session;
mod terminal;
mod visibility;

pub use crate::color::Color;
pub use crate::color::color_index;
pub use crate::color::color_of_index;
pub use crate::color::color_to_i16;
pub use crate::color::i16_to_color;
pub use crate::color::lemma_color_index_round_trip;
pub use crate::color::lemma_color_index_injective;
pub use crate::color::lemma_color_of_index_round_trip;
pub use crate::pair::ColorPair;
pub use crate::pair::pair_id_of;
pub use crate::pair::lemma_pair_id_in_range;
pub use crate::pair::lemma_pair_id_injective;
pub use crate::pair::lemma_pair_id_surjective;
pub use crate::pair::lemma_encode_injective;
pub use crate::session::RunEnding;
pub use crate::session::Session;
pub use crate::session::fully_registered;
pub use crate::session::session_run_post;
pub use crate::session::report_of_ending;
pub use crate::session::report_of_ending_spec;
pub use crate::session::run_capturing_failure;
pub use crate::session::run_session_capturing;
pub use crate::session::preserves_session;
pub use crate::session::lemma_sequential_sessions_independent;
pub use crate::terminal::CURSES_ERR;
pub use crate::terminal::CURSES_OK;
pub use crate::terminal::PAIR_SLOT_COUNT;
pub use crate::terminal::SimTerminal;
pub use crate::terminal::to_bool;
pub use crate::terminal::xy_to_row;
pub use crate::visibility::CursorVisibility;
pub use crate::visibility::visibility_code;
pub use crate::visibility::visibility_of_code;
pub use crate::visibility::visibility_to_i32;
pub use crate::visibility::i32_to_visibility;
pub use crate::visibility::lemma_visibility_code_round_trip;
