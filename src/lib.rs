//! Playback session of a terminal music player: catalog, state machine with
//! clock-based elapsed time, no-repeat shuffle, key bindings and tick pacing.
//!
//! The audio output, the clock, the terminal and the file system stay with
//! the caller, which hands the library plain values and carries out the
//! effects it returns.

use vstd::prelude::*;

pub mod catalog;
pub mod input;
pub mod session;
pub mod shuffle;
pub mod ticker;
pub mod timefmt;

pub use catalog::{is_supported_extension, Song, DEFAULT_DURATION_MS};
pub use input::{command_for_key, handle_key_event, Command, Effect, Key};
pub use session::{App, PlaybackState};
pub use ticker::EventHandler;
pub use timefmt::{format_duration, time_label};

verus! {

} // verus!
