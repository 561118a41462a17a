use vstd::prelude::*;

use crate::audio::player::PlaybackState;
use crate::audio::queue::opt_song;
use crate::audio::song::label_or;
use crate::audio::song::Song;
use crate::audio::song::SongView;

verus! {

/// The volume of a player that has not been told any: the bit pattern of
/// the double-precision value one.
pub const FULL_VOLUME: u64 = 0x3ff0_0000_0000_0000;

/// The duration that a player with the given current song reports: the
/// song's, or zero (unknown) without a song.
pub open spec fn duration_of(song: Option<SongView>) -> u64 {
    match song {
        Some(s) => s.data.duration,
        None => 0,
    }
}

/// A position brought into the range of a duration: unchanged while the
/// duration is unknown (zero), else at most the duration.
pub open spec fn clamp_position(position: u64, duration: u64) -> u64 {
    if duration > 0 && position > duration {
        duration
    } else {
        position
    }
}

/// The observable snapshot of the player: transport state, current song,
/// position and volume. Observers read it; only the playback engine
/// writes it.
#[derive(Debug)]
pub struct PlayerState {
    playback_state: PlaybackState,
    position: u64,
    current_song: Option<Song>,
    volume: u64,
}

impl PlayerState {
    /// The position never exceeds a known duration.
    #[verifier::type_invariant]
    pub closed spec fn wf(self) -> bool {
        self.position == clamp_position(self.position, duration_of(opt_song(self.current_song)))
    }

    pub closed spec fn playback(self) -> PlaybackState {
        self.playback_state
    }

    /// Seconds elapsed in the current song.
    pub closed spec fn elapsed(self) -> u64 {
        self.position
    }

    pub closed spec fn song(self) -> Option<SongView> {
        opt_song(self.current_song)
    }

    /// The volume on the perceptual (cubic) scale, as the bit pattern of a
    /// double-precision number; the engine stores and forwards it unread.
    pub closed spec fn loudness(self) -> u64 {
        self.volume
    }

    /// What the invariant gives to callers.
    pub proof fn lemma_wf(self)
        requires
            self.wf(),
        ensures
            duration_of(self.song()) > 0 ==> self.elapsed() <= duration_of(self.song()),
    {
    }

    /// The state of a player that has not been given anything to play:
    /// stopped, no song, position zero, and the given volume.
    pub fn new(volume: u64) -> (r: PlayerState)
        ensures
            r.wf(),
            r.playback() == PlaybackState::Stopped,
            r.elapsed() == 0,
            r.song().is_none(),
            r.loudness() == volume,
    {
        PlayerState {
            playback_state: PlaybackState::Stopped,
            position: 0,
            current_song: None,
            volume,
        }
    }

    pub fn playback_state(&self) -> (r: PlaybackState)
        ensures
            r == self.playback(),
    {
        self.playback_state
    }

    pub fn playing(&self) -> (r: bool)
        ensures
            r == (self.playback() == PlaybackState::Playing),
    {
        match self.playback_state {
            PlaybackState::Playing => true,
            _ => false,
        }
    }

    pub fn current_song(&self) -> (r: Option<Song>)
        ensures
            opt_song(r) == self.song(),
    {
        match &self.current_song {
            Some(s) => Some(s.clone()),
            None => None,
        }
    }

    pub fn position(&self) -> (r: u64)
        ensures
            r == self.elapsed(),
            duration_of(self.song()) > 0 ==> r <= duration_of(self.song()),
    {
        proof {
            use_type_invariant(self);
        }
        self.position
    }

    /// Duration of the current song, zero when there is none or it is
    /// unknown.
    pub fn duration(&self) -> (r: u64)
        ensures
            r == duration_of(self.song()),
    {
        match &self.current_song {
            Some(s) => s.duration(),
            None => 0,
        }
    }

    /// Seconds left of the current song; zero once the position has
    /// reached the duration, or while the duration is unknown.
    pub fn remaining(&self) -> (r: u64)
        ensures
            r == if duration_of(self.song()) >= self.elapsed() {
                duration_of(self.song()) - self.elapsed()
            } else {
                0
            },
    {
        let duration = self.duration();
        if duration >= self.position {
            duration - self.position
        } else {
            0
        }
    }

    pub fn volume(&self) -> (r: u64)
        ensures
            r == self.loudness(),
    {
        self.volume
    }

    /// Title of the current song, with the placeholder for a song
    /// without one.
    pub fn title(&self) -> (r: Option<String>)
        ensures
            match self.song() {
                Some(s) => r.is_some() && r.unwrap()@ == label_or(s.data.title, "Unknown title"@),
                None => r.is_none(),
            },
    {
        match &self.current_song {
            Some(s) => Some(s.title()),
            None => None,
        }
    }

    /// Artist of the current song, with the placeholder for a song
    /// without one.
    pub fn artist(&self) -> (r: Option<String>)
        ensures
            match self.song() {
                Some(s) => r.is_some() && r.unwrap()@ == label_or(
                    s.data.artist,
                    "Unknown artist"@,
                ),
                None => r.is_none(),
            },
    {
        match &self.current_song {
            Some(s) => Some(s.artist()),
            None => None,
        }
    }

    /// Album of the current song, with the placeholder for a song
    /// without one.
    pub fn album(&self) -> (r: Option<String>)
        ensures
            match self.song() {
                Some(s) => r.is_some() && r.unwrap()@ == label_or(s.data.album, "Unknown album"@),
                None => r.is_none(),
            },
    {
        match &self.current_song {
            Some(s) => Some(s.album()),
            None => None,
        }
    }

    pub(crate) fn set_playback_state(&mut self, playback_state: PlaybackState)
        ensures
            final(self).wf(),
            final(self).playback() == playback_state,
            final(self).elapsed() == old(self).elapsed(),
            final(self).song() == old(self).song(),
            final(self).loudness() == old(self).loudness(),
    {
        proof {
            use_type_invariant(&*self);
        }
        self.playback_state = playback_state;
    }

    /// Replaces the current song; the position starts over at zero.
    pub(crate) fn set_current_song(&mut self, song: Option<Song>)
        ensures
            final(self).wf(),
            final(self).song() == opt_song(song),
            final(self).elapsed() == 0,
            final(self).playback() == old(self).playback(),
            final(self).loudness() == old(self).loudness(),
    {
        *self = PlayerState {
            playback_state: self.playback_state,
            position: 0,
            current_song: song,
            volume: self.volume,
        };
    }

    /// Takes a fresh snapshot of the current song, whose duration has not
    /// changed; the position stays.
    pub(crate) fn refresh_song(&mut self, song: Option<Song>)
        requires
            duration_of(opt_song(song)) == duration_of(old(self).song()),
        ensures
            final(self).wf(),
            final(self).song() == opt_song(song),
            final(self).elapsed() == old(self).elapsed(),
            final(self).playback() == old(self).playback(),
            final(self).loudness() == old(self).loudness(),
    {
        proof {
            use_type_invariant(&*self);
        }
        *self = PlayerState {
            playback_state: self.playback_state,
            position: self.position,
            current_song: song,
            volume: self.volume,
        };
    }

    /// Writes the position, held to the duration when that is known.
    pub(crate) fn set_position(&mut self, position: u64)
        ensures
            final(self).wf(),
            final(self).elapsed() == clamp_position(position, duration_of(old(self).song())),
            final(self).playback() == old(self).playback(),
            final(self).song() == old(self).song(),
            final(self).loudness() == old(self).loudness(),
    {
        let duration = self.duration();
        if duration > 0 && position > duration {
            self.position = duration;
        } else {
            self.position = position;
        }
    }

    pub(crate) fn set_volume(&mut self, volume: u64)
        ensures
            final(self).wf(),
            final(self).loudness() == volume,
            final(self).playback() == old(self).playback(),
            final(self).elapsed() == old(self).elapsed(),
            final(self).song() == old(self).song(),
    {
        proof {
            use_type_invariant(&*self);
        }
        self.volume = volume;
    }
}

impl Default for PlayerState {
    /// Stopped, no song, position zero, full volume.
    fn default() -> (r: PlayerState)
        ensures
            r.wf(),
            r.playback() == PlaybackState::Stopped,
            r.elapsed() == 0,
            r.song().is_none(),
            r.loudness() == FULL_VOLUME,
    {
        PlayerState::new(FULL_VOLUME)
    }
}

} // verus!
