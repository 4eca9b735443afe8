//! Translation layer between a native windowing system and an
//! immediate-mode GUI: native input events are turned into a normalized
//! stream of abstract events, and declarative window configuration is
//! reconciled into an ordered list of imperative window commands.
//!
//! All coordinates are logical points; fractional quantities (scale
//! factors, zoom factors) are carried as integers in thousandths so that
//! the translation logic is exact.

use vstd::prelude::*;

pub mod applier;
pub mod events;
pub mod keymap;
pub mod laws;
pub mod state;
pub mod text;
pub mod viewport;
pub mod zoom;

pub use applier::process_viewport_commands;
pub use events::EventResponse;
pub use state::State;
pub use text::is_printable_char;
pub use viewport::changes_between_builders;
pub use viewport::window_creation_settings;
pub use zoom::zoom_in;
pub use zoom::zoom_menu_buttons;
pub use zoom::zoom_out;
pub use zoom::zoom_with_keyboard;

verus! {

/// How keyboard shortcuts and modifier keys are interpreted; chosen when a
/// translator is constructed instead of being compiled in.
#[derive(Clone, Copy, Debug, PartialEq, Eq, Structural)]
pub enum Platform {
    Windows,
    MacOs,
    Other,
}

} // verus!
