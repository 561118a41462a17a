//! Playback queue and player-state engine of a desktop audio player.
//!
//! The crate owns the ordered (optionally shuffled) list of songs, the cursor
//! into it, the repeat policy and the transport state machine. Everything that
//! touches a device, a file or a display is left to the caller, which feeds
//! events in and carries out the commands that come back.

pub mod audio;
pub mod utils;
