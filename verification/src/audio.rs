//! The audio core: songs, the shuffle projection, the queue, the observable
//! player state and the playback engine.

pub mod inhibit_controller;
pub mod mpris_controller;
pub mod player;
pub mod queue;
pub mod shuffle;
pub mod song;
pub mod state;
