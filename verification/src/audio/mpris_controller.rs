use vstd::prelude::*;

use crate::audio::player::PlaybackAction;
use crate::audio::player::PlaybackState;
use crate::audio::player::RepeatMode;

verus! {

/// Playback status as the remote-control protocol names it.
#[derive(Clone, Copy, Debug, PartialEq, Eq, Structural)]
pub enum PlaybackStatus {
    Playing,
    Paused,
    Stopped,
}

/// Loop status as the remote-control protocol names it.
#[derive(Clone, Copy, Debug, PartialEq, Eq, Structural)]
pub enum LoopStatus {
    /// Playback stops after the last track.
    NoLoop,
    /// The current track repeats.
    Track,
    /// The whole list repeats.
    Playlist,
}

/// Microseconds in a second.
pub const MICROS_PER_SECOND: u64 = 1_000_000;

/// The status reported for a transport state: playing as playing,
/// everything else as stopped.
pub open spec fn status_of(state: PlaybackState) -> PlaybackStatus {
    if state == PlaybackState::Playing {
        PlaybackStatus::Playing
    } else {
        PlaybackStatus::Stopped
    }
}

/// The loop status reported for a repeat mode.
pub open spec fn loop_of(mode: RepeatMode) -> LoopStatus {
    match mode {
        RepeatMode::Consecutive => LoopStatus::NoLoop,
        RepeatMode::RepeatOne => LoopStatus::Track,
        RepeatMode::RepeatAll => LoopStatus::Playlist,
    }
}

/// The repeat mode asked for by a loop status.
pub open spec fn mode_of(status: LoopStatus) -> RepeatMode {
    match status {
        LoopStatus::NoLoop => RepeatMode::Consecutive,
        LoopStatus::Track => RepeatMode::RepeatOne,
        LoopStatus::Playlist => RepeatMode::RepeatAll,
    }
}

/// A time in seconds as the protocol's signed count of microseconds, as
/// far as that can count.
pub open spec fn micros_of(seconds: u64) -> i64 {
    if seconds * MICROS_PER_SECOND <= i64::MAX {
        (seconds * MICROS_PER_SECOND) as i64
    } else {
        i64::MAX
    }
}

/// The whole seconds of the protocol's count of microseconds; a negative
/// count is zero seconds.
pub open spec fn seconds_of(micros: i64) -> u64 {
    if micros <= 0 {
        0
    } else {
        (micros as int / MICROS_PER_SECOND as int) as u64
    }
}

/// The status to report for a transport state.
pub fn playback_status(state: PlaybackState) -> (r: PlaybackStatus)
    ensures
        r == status_of(state),
{
    match state {
        PlaybackState::Playing => PlaybackStatus::Playing,
        _ => PlaybackStatus::Stopped,
    }
}

/// The loop status to report for a repeat mode.
pub fn loop_status(mode: RepeatMode) -> (r: LoopStatus)
    ensures
        r == loop_of(mode),
{
    match mode {
        RepeatMode::Consecutive => LoopStatus::NoLoop,
        RepeatMode::RepeatOne => LoopStatus::Track,
        RepeatMode::RepeatAll => LoopStatus::Playlist,
    }
}

/// The action for a loop status that a remote control asks for.
pub fn repeat_action(status: LoopStatus) -> (r: PlaybackAction)
    ensures
        r == PlaybackAction::Repeat(mode_of(status)),
{
    match status {
        LoopStatus::NoLoop => PlaybackAction::Repeat(RepeatMode::Consecutive),
        LoopStatus::Track => PlaybackAction::Repeat(RepeatMode::RepeatOne),
        LoopStatus::Playlist => PlaybackAction::Repeat(RepeatMode::RepeatAll),
    }
}

/// The action for "play or pause" from a remote control that was last
/// told `status`: play when paused or stopped, pause otherwise.
pub fn play_pause_action(status: PlaybackStatus) -> (r: PlaybackAction)
    ensures
        r == if status == PlaybackStatus::Playing {
            PlaybackAction::Pause
        } else {
            PlaybackAction::Play
        },
{
    match status {
        PlaybackStatus::Paused => PlaybackAction::Play,
        PlaybackStatus::Stopped => PlaybackAction::Play,
        PlaybackStatus::Playing => PlaybackAction::Pause,
    }
}

/// The action for a seek that a remote control asks for, its position
/// given in microseconds.
pub fn seek_action(position: i64) -> (r: PlaybackAction)
    ensures
        r == PlaybackAction::Seek(seconds_of(position)),
{
    if position <= 0 {
        PlaybackAction::Seek(0)
    } else {
        PlaybackAction::Seek(position as u64 / MICROS_PER_SECOND)
    }
}

/// A time in seconds in the protocol's microseconds.
pub fn micros(seconds: u64) -> (r: i64)
    ensures
        r == micros_of(seconds),
{
    if seconds <= 9_223_372_036_854 {
        (seconds * MICROS_PER_SECOND) as i64
    } else {
        i64::MAX
    }
}

/// The loop status that stands for a repeat mode asks for that repeat mode
/// again.
pub proof fn law_loop_status_round_trip(mode: RepeatMode, status: LoopStatus)
    ensures
        mode_of(loop_of(mode)) == mode,
        loop_of(mode_of(status)) == status,
{
}

/// Whole seconds survive the way through microseconds.
pub proof fn law_micros_round_trip(seconds: u64)
    requires
        seconds * MICROS_PER_SECOND <= i64::MAX,
    ensures
        seconds_of(micros_of(seconds)) == seconds,
{
    assert((seconds * 1_000_000) / 1_000_000 == seconds) by (nonlinear_arith);
}

} // verus!
