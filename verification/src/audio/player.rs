use vstd::prelude::*;

use crate::audio::queue::admitted;
use crate::audio::queue::at_rest;
use crate::audio::queue::backing_after_removal;
use crate::audio::queue::first_match_from;
use crate::audio::queue::marked;
use crate::audio::queue::next_cursor;
use crate::audio::queue::opt_song;
use crate::audio::queue::song_left;
use crate::audio::queue::Queue;
use crate::audio::song::is_sentinel;
use crate::audio::song::Song;
use crate::audio::song::SongView;
use crate::audio::state::clamp_position;
use crate::audio::state::duration_of;
use crate::audio::state::PlayerState;
use crate::audio::state::FULL_VOLUME;

verus! {

/// Transport state of the player.
#[derive(Clone, Copy, Debug, PartialEq, Eq, Structural)]
pub enum PlaybackState {
    Stopped,
    Playing,
    Paused,
}

impl Default for PlaybackState {
    fn default() -> (r: PlaybackState)
        ensures
            r == PlaybackState::Stopped,
    {
        PlaybackState::Stopped
    }
}

/// What the queue does when the current song ends.
#[derive(Clone, Copy, Debug, PartialEq, Eq, Structural)]
pub enum RepeatMode {
    /// Play the songs in order and stop after the last one.
    Consecutive,
    /// Play the songs in order and start over after the last one.
    RepeatAll,
    /// Play the current song again.
    RepeatOne,
}

impl Default for RepeatMode {
    fn default() -> (r: RepeatMode)
        ensures
            r == RepeatMode::Consecutive,
    {
        RepeatMode::Consecutive
    }
}

/// Direction of a relative seek.
#[derive(Clone, Copy, Debug, PartialEq, Eq, Structural)]
pub enum SeekDirection {
    Forward,
    Backwards,
}

/// An event or request that the playback engine handles. Requests come from
/// the user interface and from external controllers, events from the media
/// backend; all of them reach the engine one at a time, in order.
#[derive(Clone, Copy, Debug, PartialEq, Eq, Structural)]
pub enum PlaybackAction {
    /// Enter the playing state, whatever the state was.
    Play,
    /// Enter the paused state, whatever the state was.
    Pause,
    /// Enter the stopped state, whatever the state was.
    Stop,
    SkipPrevious,
    SkipNext,
    /// Jump to the song at an effective position of the queue.
    SkipTo(u32),
    /// The backend reports the position, in seconds.
    UpdatePosition(u64),
    /// The backend reports the volume: the bit pattern of the
    /// double-precision value on the perceptual (cubic) scale.
    VolumeChanged(u64),
    /// The backend reached the end of the current song.
    PlayNext,
    /// The backend failed to play the current song; the engine moves on
    /// as at the end of a song.
    BackendError,
    /// Seek to a position, in seconds.
    Seek(u64),
    /// Seek by an offset, in seconds, from the current position.
    SeekBy(u64, SeekDirection),
    /// Set the repeat mode.
    Repeat(RepeatMode),
    /// Step to the next repeat mode.
    ToggleRepeatMode,
    /// Turn the shuffle on or off.
    SetShuffle(bool),
    /// Bring the player's window to the front.
    Raise,
}

/// Something the engine asks of its surroundings: an instruction to the
/// media backend, a notification for the external controllers, or a request
/// to the window.
#[derive(Debug)]
pub enum Command {
    /// Backend: load the resource at this URI.
    SetSongUri(String),
    /// Backend: start or resume rendering.
    Play,
    /// Backend: pause.
    Pause,
    /// Backend: stop.
    Stop,
    /// Backend: seek to this position, in seconds.
    Seek(u64),
    /// Backend: set the volume given on the perceptual (cubic) scale, as
    /// the bit pattern of a double-precision value.
    SetVolume(u64),
    /// Controllers: this song is now the current one.
    SongChanged(Song),
    /// Controllers: the transport state is now this.
    PlaybackStateChanged(PlaybackState),
    /// Controllers: the position is now this, in seconds.
    PositionChanged(u64),
    /// Controllers: the repeat mode is now this.
    RepeatModeChanged(RepeatMode),
    /// Window: come to the front.
    Present,
}

/// Mathematical value of a [`Command`].
pub ghost enum CommandView {
    SetSongUri(Seq<char>),
    Play,
    Pause,
    Stop,
    Seek(u64),
    SetVolume(u64),
    SongChanged(SongView),
    PlaybackStateChanged(PlaybackState),
    PositionChanged(u64),
    RepeatModeChanged(RepeatMode),
    Present,
}

impl View for Command {
    type V = CommandView;

    open spec fn view(&self) -> CommandView {
        match *self {
            Command::SetSongUri(uri) => CommandView::SetSongUri(uri@),
            Command::Play => CommandView::Play,
            Command::Pause => CommandView::Pause,
            Command::Stop => CommandView::Stop,
            Command::Seek(p) => CommandView::Seek(p),
            Command::SetVolume(v) => CommandView::SetVolume(v),
            Command::SongChanged(s) => CommandView::SongChanged(s@),
            Command::PlaybackStateChanged(s) => CommandView::PlaybackStateChanged(s),
            Command::PositionChanged(p) => CommandView::PositionChanged(p),
            Command::RepeatModeChanged(m) => CommandView::RepeatModeChanged(m),
            Command::Present => CommandView::Present,
        }
    }
}

/// The values of a list of commands, in order.
pub open spec fn command_views(cmds: Seq<Command>) -> Seq<CommandView> {
    Seq::new(cmds.len(), |i: int| cmds[i]@)
}

/// How far into a song "previous" stops meaning "previous song" and means
/// "start this song over", in seconds.
pub const RESTART_THRESHOLD: u64 = 10;

/// The offset of the two fixed seek steps, in seconds.
pub const SEEK_STEP: u64 = 10;

/// Where a relative seek lands. Backwards it stops at zero. Forward it
/// stops at the duration, and there is no target at all while the duration
/// is unknown (zero).
pub open spec fn seek_target(
    position: u64,
    duration: u64,
    offset: u64,
    direction: SeekDirection,
) -> Option<u64> {
    match direction {
        SeekDirection::Backwards => if position >= offset {
            Some((position - offset) as u64)
        } else {
            Some(0u64)
        },
        SeekDirection::Forward => if duration == 0 {
            None
        } else if position + offset <= duration {
            Some((position + offset) as u64)
        } else {
            Some(duration)
        },
    }
}

/// Computes where a relative seek lands.
pub fn seek_destination(position: u64, duration: u64, offset: u64, direction: SeekDirection) -> (r:
    Option<u64>)
    ensures
        r == seek_target(position, duration, offset, direction),
        r.is_some() && duration > 0 && position <= duration ==> r.unwrap() <= duration,
{
    match direction {
        SeekDirection::Backwards => {
            if position >= offset {
                Some(position - offset)
            } else {
                Some(0)
            }
        },
        SeekDirection::Forward => {
            if duration == 0 {
                None
            } else if position <= duration && offset <= duration - position {
                Some(position + offset)
            } else {
                Some(duration)
            }
        },
    }
}

/// A forward seek never leaves the song: with a known duration and a
/// position within it, the target exists, is no earlier than the position
/// and no later than the duration, and it is the duration itself once the
/// offset reaches that far.
pub proof fn law_forward_seek_stays_within_duration(position: u64, duration: u64, offset: u64)
    requires
        duration > 0,
        position <= duration,
    ensures
        seek_target(position, duration, offset, SeekDirection::Forward).is_some(),
        position <= seek_target(position, duration, offset, SeekDirection::Forward).unwrap()
            <= duration,
        position + offset >= duration ==> seek_target(
            position,
            duration,
            offset,
            SeekDirection::Forward,
        ) == Some(duration),
{
}

/// A backward seek never goes below zero: the target always exists, is no
/// later than the position, and is zero once the offset reaches that far.
pub proof fn law_backward_seek_stops_at_zero(position: u64, duration: u64, offset: u64)
    ensures
        seek_target(position, duration, offset, SeekDirection::Backwards).is_some(),
        seek_target(position, duration, offset, SeekDirection::Backwards).unwrap() <= position,
        offset >= position ==> seek_target(position, duration, offset, SeekDirection::Backwards)
            == Some(0u64),
{
}

/// The repeat mode that follows `mode` when the user steps through them.
pub open spec fn next_repeat_mode(mode: RepeatMode) -> RepeatMode {
    match mode {
        RepeatMode::Consecutive => RepeatMode::RepeatAll,
        RepeatMode::RepeatAll => RepeatMode::RepeatOne,
        RepeatMode::RepeatOne => RepeatMode::Consecutive,
    }
}

/// The commands that make `song` the loaded song, positioned at its start.
/// A player that was playing is paused for the change and resumed after it.
pub open spec fn load_commands(song: SongView, was_playing: bool) -> Seq<CommandView> {
    let load = seq![
        CommandView::SongChanged(song),
        CommandView::SetSongUri(song.data.uri),
        CommandView::Seek(0),
    ];
    if was_playing {
        seq![CommandView::PlaybackStateChanged(PlaybackState::Paused), CommandView::Pause] + load
            + seq![CommandView::PlaybackStateChanged(PlaybackState::Playing), CommandView::Play]
    } else {
        load
    }
}

/// The commands that enter a transport state.
pub open spec fn transport_commands(state: PlaybackState) -> Seq<CommandView> {
    seq![
        CommandView::PlaybackStateChanged(state),
        match state {
            PlaybackState::Playing => CommandView::Play,
            PlaybackState::Paused => CommandView::Pause,
            PlaybackState::Stopped => CommandView::Stop,
        },
    ]
}

/// The commands that give a player which had no current song the song
/// `song` and put it in a transport state.
pub open spec fn start_commands(song: SongView, state: PlaybackState) -> Seq<CommandView> {
    seq![CommandView::SongChanged(song), CommandView::SetSongUri(song.data.uri)]
        + transport_commands(state)
}

/// Whether two queues hold the same songs in the same effective order,
/// with the same repeat mode and shuffle setting.
pub open spec fn same_songs(a: Queue, b: Queue) -> bool {
    &&& a.entries() == b.entries()
    &&& a.order() == b.order()
    &&& a.repeat() == b.repeat()
    &&& a.is_shuffled() == b.is_shuffled()
}

/// Whether two queues are alike in everything that can be observed.
pub open spec fn same_queue(a: Queue, b: Queue) -> bool {
    same_songs(a, b) && a.cursor() == b.cursor()
}

/// Whether two player states are alike in everything that can be observed.
pub open spec fn same_state(a: PlayerState, b: PlayerState) -> bool {
    &&& a.playback() == b.playback()
    &&& a.elapsed() == b.elapsed()
    &&& a.song() == b.song()
    &&& a.loudness() == b.loudness()
}

/// The commands that play the current song again from its start.
pub open spec fn replay_commands(state: PlaybackState) -> Seq<CommandView> {
    if state == PlaybackState::Playing {
        seq![CommandView::Seek(0), CommandView::Play]
    } else {
        seq![CommandView::Seek(0)] + transport_commands(PlaybackState::Playing)
    }
}

/// No commands.
pub open spec fn nothing() -> Seq<CommandView> {
    Seq::<CommandView>::empty()
}

/// An empty list of commands.
fn no_commands() -> (cmds: Vec<Command>)
    ensures
        command_views(cmds@) == nothing(),
{
    let cmds: Vec<Command> = Vec::new();
    assert(command_views(cmds@) =~= nothing());
    cmds
}

/// Appends one command to a list.
fn push_command(cmds: &mut Vec<Command>, c: Command)
    ensures
        command_views(final(cmds)@) == command_views(old(cmds)@).push(c@),
{
    cmds.push(c);
    assert(command_views(cmds@) =~= command_views(old(cmds)@).push(c@));
}

/// Appends the two commands that enter a transport state.
fn push_transport(cmds: &mut Vec<Command>, state: PlaybackState)
    ensures
        command_views(final(cmds)@) == command_views(old(cmds)@) + transport_commands(state),
{
    push_command(cmds, Command::PlaybackStateChanged(state));
    match state {
        PlaybackState::Playing => push_command(cmds, Command::Play),
        PlaybackState::Paused => push_command(cmds, Command::Pause),
        PlaybackState::Stopped => push_command(cmds, Command::Stop),
    }
    assert(command_views(cmds@) =~= command_views(old(cmds)@) + transport_commands(state));
}

/// The playback engine: it owns the queue and the player state, takes one
/// action at a time, and answers each with the commands to carry out.
#[derive(Debug)]
pub struct AudioPlayer {
    queue: Queue,
    state: PlayerState,
}

/// Nothing that can be observed of the engine has changed.
pub open spec fn unchanged(pre: AudioPlayer, post: AudioPlayer) -> bool {
    same_queue(post.queue_view(), pre.queue_view()) && same_state(
        post.state_view(),
        pre.state_view(),
    )
}

/// What holds after the engine has made the song at the queue's cursor the
/// loaded song: the position starts over, the volume is untouched, and
/// either the song was loaded with the transport state kept, or, where the
/// cursor is unset, the player was stopped.
pub open spec fn song_loaded(pre: AudioPlayer, post: AudioPlayer, cmds: Seq<CommandView>) -> bool {
    &&& post.state_view().elapsed() == 0
    &&& post.state_view().loudness() == pre.state_view().loudness()
    &&& match post.queue_view().current() {
        Some(song) => {
            &&& post.state_view().playback() == pre.state_view().playback()
            &&& cmds == load_commands(song, pre.state_view().playback() == PlaybackState::Playing)
        },
        None => {
            &&& post.state_view().playback() == PlaybackState::Stopped
            &&& cmds == transport_commands(PlaybackState::Stopped)
        },
    }
}

/// The outcome of a request for a transport state. An engine with a
/// current song enters the state, whatever state it was in. One without
/// takes the queue's next song first and enters the state with that song
/// loaded, or stays stopped when the queue has none to give.
pub open spec fn set_playback_state_post(
    state: PlaybackState,
    pre: AudioPlayer,
    post: AudioPlayer,
    cmds: Seq<CommandView>,
) -> bool {
    &&& same_songs(post.queue_view(), pre.queue_view())
    &&& post.state_view().loudness() == pre.state_view().loudness()
    &&& if pre.state_view().song().is_some() {
        &&& same_queue(post.queue_view(), pre.queue_view())
        &&& post.state_view().playback() == state
        &&& post.state_view().elapsed() == pre.state_view().elapsed()
        &&& cmds == transport_commands(state)
    } else {
        &&& post.queue_view().cursor() == next_cursor(
            pre.queue_view().repeat(),
            pre.queue_view().len(),
            pre.queue_view().cursor(),
        )
        &&& post.state_view().elapsed() == 0
        &&& match post.queue_view().current() {
            Some(song) => {
                &&& post.state_view().playback() == state
                &&& cmds == start_commands(song, state)
            },
            None => {
                &&& post.state_view().playback() == PlaybackState::Stopped
                &&& cmds == nothing()
            },
        }
    }
}

/// The outcome of "play" from the user interface: a playing engine is
/// left alone, any other is asked to play.
pub open spec fn play_post(pre: AudioPlayer, post: AudioPlayer, cmds: Seq<CommandView>) -> bool {
    if pre.state_view().playback() == PlaybackState::Playing {
        unchanged(pre, post) && cmds == nothing()
    } else {
        set_playback_state_post(PlaybackState::Playing, pre, post, cmds)
    }
}

/// The outcome of "pause" from the user interface: a playing engine is
/// paused, any other is left alone.
pub open spec fn pause_post(pre: AudioPlayer, post: AudioPlayer, cmds: Seq<CommandView>) -> bool {
    if pre.state_view().playback() == PlaybackState::Playing {
        set_playback_state_post(PlaybackState::Paused, pre, post, cmds)
    } else {
        unchanged(pre, post) && cmds == nothing()
    }
}

/// The outcome of "play or pause": pause when playing, play otherwise.
pub open spec fn toggle_play_post(pre: AudioPlayer, post: AudioPlayer, cmds: Seq<CommandView>) -> bool {
    if pre.state_view().playback() == PlaybackState::Playing {
        pause_post(pre, post, cmds)
    } else {
        play_post(pre, post, cmds)
    }
}

/// The outcome of "next": the cursor advances under the repeat mode and
/// the song it lands on is loaded; an exhausted queue stops the player.
pub open spec fn skip_next_post(pre: AudioPlayer, post: AudioPlayer, cmds: Seq<CommandView>) -> bool {
    &&& same_songs(post.queue_view(), pre.queue_view())
    &&& post.queue_view().cursor() == next_cursor(
        pre.queue_view().repeat(),
        pre.queue_view().len(),
        pre.queue_view().cursor(),
    )
    &&& song_loaded(pre, post, cmds)
}

/// The outcome of "previous": at or beyond the restart threshold the
/// current song starts over; before it the cursor steps back and that song
/// is loaded; at the first song, or without a current song, nothing
/// happens.
pub open spec fn skip_previous_post(
    pre: AudioPlayer,
    post: AudioPlayer,
    cmds: Seq<CommandView>,
) -> bool {
    &&& same_songs(post.queue_view(), pre.queue_view())
    &&& match pre.queue_view().cursor() {
        None => unchanged(pre, post) && cmds == nothing(),
        Some(c) => if pre.state_view().elapsed() >= RESTART_THRESHOLD {
            &&& same_queue(post.queue_view(), pre.queue_view())
            &&& post.state_view().playback() == pre.state_view().playback()
            &&& post.state_view().loudness() == pre.state_view().loudness()
            &&& post.state_view().elapsed() == 0
            &&& cmds == seq![CommandView::Seek(0)]
        } else if c == 0 {
            unchanged(pre, post) && cmds == nothing()
        } else {
            &&& post.queue_view().cursor() == Some((c - 1) as u32)
            &&& song_loaded(pre, post, cmds)
        },
    }
}

/// The outcome of "skip to `pos`": the cursor is set to `pos` and that song
/// is loaded; a position past the end unsets the cursor and stops the
/// player.
pub open spec fn skip_to_post(
    pos: u32,
    pre: AudioPlayer,
    post: AudioPlayer,
    cmds: Seq<CommandView>,
) -> bool {
    &&& same_songs(post.queue_view(), pre.queue_view())
    &&& post.queue_view().cursor() == if pos < pre.queue_view().len() {
        Some(pos)
    } else {
        None
    }
    &&& song_loaded(pre, post, cmds)
}

/// The outcome of the end of the current song: under repeat-one the song
/// is played again from its start, otherwise the engine moves on as for
/// "next".
pub open spec fn play_next_post(pre: AudioPlayer, post: AudioPlayer, cmds: Seq<CommandView>) -> bool {
    if pre.queue_view().repeat() == RepeatMode::RepeatOne && pre.queue_view().cursor().is_some() {
        &&& same_queue(post.queue_view(), pre.queue_view())
        &&& post.state_view().playback() == PlaybackState::Playing
        &&& post.state_view().elapsed() == 0
        &&& post.state_view().loudness() == pre.state_view().loudness()
        &&& cmds == replay_commands(pre.state_view().playback())
    } else {
        skip_next_post(pre, post, cmds)
    }
}

/// The outcome of a seek to `target`: the position is the target, the
/// backend is told to go there, and nothing else changes.
pub open spec fn sought(
    target: u64,
    pre: AudioPlayer,
    post: AudioPlayer,
    cmds: Seq<CommandView>,
) -> bool {
    &&& same_queue(post.queue_view(), pre.queue_view())
    &&& post.state_view().playback() == pre.state_view().playback()
    &&& post.state_view().loudness() == pre.state_view().loudness()
    &&& post.state_view().elapsed() == target
    &&& cmds == seq![CommandView::Seek(target)]
}

/// The outcome of a relative seek: the position moves to the seek target,
/// or nothing happens when there is none.
pub open spec fn seek_post(
    offset: u64,
    direction: SeekDirection,
    pre: AudioPlayer,
    post: AudioPlayer,
    cmds: Seq<CommandView>,
) -> bool {
    match seek_target(
        pre.state_view().elapsed(),
        duration_of(pre.state_view().song()),
        offset,
        direction,
    ) {
        Some(target) => sought(target, pre, post, cmds),
        None => unchanged(pre, post) && cmds == nothing(),
    }
}

/// The outcome of a seek to a position: the position held to the duration,
/// when that is known, is where the player goes.
pub open spec fn seek_position_post(
    position: u64,
    pre: AudioPlayer,
    post: AudioPlayer,
    cmds: Seq<CommandView>,
) -> bool {
    sought(clamp_position(position, duration_of(pre.state_view().song())), pre, post, cmds)
}

/// The outcome of a position report: the position is written, held to the
/// duration when that is known, and the controllers are told.
pub open spec fn update_position_post(
    position: u64,
    pre: AudioPlayer,
    post: AudioPlayer,
    cmds: Seq<CommandView>,
) -> bool {
    &&& same_queue(post.queue_view(), pre.queue_view())
    &&& post.state_view().playback() == pre.state_view().playback()
    &&& post.state_view().loudness() == pre.state_view().loudness()
    &&& post.state_view().elapsed() == clamp_position(
        position,
        duration_of(pre.state_view().song()),
    )
    &&& cmds == seq![CommandView::PositionChanged(post.state_view().elapsed())]
}

/// The outcome of a volume report: the volume is written.
pub open spec fn update_volume_post(
    volume: u64,
    pre: AudioPlayer,
    post: AudioPlayer,
    cmds: Seq<CommandView>,
) -> bool {
    &&& same_queue(post.queue_view(), pre.queue_view())
    &&& post.state_view().playback() == pre.state_view().playback()
    &&& post.state_view().elapsed() == pre.state_view().elapsed()
    &&& post.state_view().loudness() == volume
    &&& cmds == nothing()
}

/// The outcome of a new repeat mode: the queue has it, and the controllers
/// are told if it is a change.
pub open spec fn set_repeat_mode_post(
    mode: RepeatMode,
    pre: AudioPlayer,
    post: AudioPlayer,
    cmds: Seq<CommandView>,
) -> bool {
    &&& post.queue_view().entries() == pre.queue_view().entries()
    &&& post.queue_view().order() == pre.queue_view().order()
    &&& post.queue_view().cursor() == pre.queue_view().cursor()
    &&& post.queue_view().is_shuffled() == pre.queue_view().is_shuffled()
    &&& post.queue_view().repeat() == mode
    &&& same_state(post.state_view(), pre.state_view())
    &&& cmds == if mode == pre.queue_view().repeat() {
        nothing()
    } else {
        seq![CommandView::RepeatModeChanged(mode)]
    }
}

/// The outcome of a shuffle switch: the songs and the current song are the
/// same, only their effective order may differ.
pub open spec fn set_shuffle_post(
    shuffle: bool,
    pre: AudioPlayer,
    post: AudioPlayer,
    cmds: Seq<CommandView>,
) -> bool {
    &&& post.queue_view().entries() == pre.queue_view().entries()
    &&& post.queue_view().repeat() == pre.queue_view().repeat()
    &&& post.queue_view().is_shuffled() == shuffle
    &&& post.queue_view().current_backing() == pre.queue_view().current_backing()
    &&& post.queue_view().current() == pre.queue_view().current()
    &&& same_state(post.state_view(), pre.state_view())
    &&& cmds == nothing()
}

/// Canonical position of the song that "next" lands on, as the queue
/// stands.
pub open spec fn advanced_backing(q: Queue) -> Option<int> {
    match next_cursor(q.repeat(), q.len(), q.cursor()) {
        Some(p) => Some(q.order()[p as int] as int),
        None => None,
    }
}

/// The outcome of removing the song at canonical position `k`. The entry
/// is gone and the others keep their order. When it was the current song,
/// the song that "next" lands on, by the repeat mode and the effective
/// order before the removal, is the current song and is loaded; where
/// "next" lands on the removed song itself its follower in canonical order
/// is taken; where there is no such song the player stops. When it was
/// another song, the current song and the playback are untouched.
pub open spec fn song_removed(
    k: int,
    pre: AudioPlayer,
    post: AudioPlayer,
    cmds: Seq<CommandView>,
) -> bool {
    &&& 0 <= k < pre.queue_view().len()
    &&& post.queue_view().entries() == pre.queue_view().entries().remove(k)
    &&& post.queue_view().repeat() == pre.queue_view().repeat()
    &&& post.queue_view().is_shuffled() == pre.queue_view().is_shuffled()
    &&& if pre.queue_view().current_backing() == Some(k) {
        &&& post.queue_view().current_backing() == backing_after_removal(
            advanced_backing(pre.queue_view()),
            k,
            pre.queue_view().len() as int,
        )
        &&& song_loaded(pre, post, cmds)
    } else {
        &&& post.queue_view().current_backing() == backing_after_removal(
            pre.queue_view().current_backing(),
            k,
            pre.queue_view().len() as int,
        )
        &&& same_state(post.state_view(), pre.state_view())
        &&& cmds == nothing()
    }
}

/// Removing the current song moves playback on as "next" does. Where
/// "next", by the repeat mode and the effective order before the removal,
/// lands on another song, that song is the current song afterwards, and
/// the transport state is kept. Where the queue is exhausted, there is no
/// current song afterwards and the player is stopped.
pub proof fn law_removing_the_current_song_advances(
    k: int,
    pre: AudioPlayer,
    post: AudioPlayer,
    cmds: Seq<CommandView>,
)
    requires
        pre.wf(),
        post.wf(),
        song_removed(k, pre, post, cmds),
        pre.queue_view().current_backing() == Some(k),
    ensures
        match advanced_backing(pre.queue_view()) {
            Some(b) => b != k ==> {
                &&& 0 <= b < pre.queue_view().len()
                &&& post.queue_view().current() == Some(
                    SongView { playing: true, ..pre.queue_view().entries()[b] },
                )
                &&& post.state_view().song() == post.queue_view().current()
                &&& post.state_view().playback() == pre.state_view().playback()
            },
            None => {
                &&& post.queue_view().current().is_none()
                &&& post.state_view().song().is_none()
                &&& post.state_view().playback() == PlaybackState::Stopped
            },
        },
{
    pre.lemma_wf();
    post.lemma_wf();
    pre.queue_view().lemma_wf();
    post.queue_view().lemma_wf();
}

/// The outcome of each action.
pub open spec fn action_post(
    action: PlaybackAction,
    pre: AudioPlayer,
    post: AudioPlayer,
    cmds: Seq<CommandView>,
) -> bool {
    match action {
        PlaybackAction::Play => set_playback_state_post(PlaybackState::Playing, pre, post, cmds),
        PlaybackAction::Pause => set_playback_state_post(PlaybackState::Paused, pre, post, cmds),
        PlaybackAction::Stop => set_playback_state_post(PlaybackState::Stopped, pre, post, cmds),
        PlaybackAction::SkipPrevious => skip_previous_post(pre, post, cmds),
        PlaybackAction::SkipNext => skip_next_post(pre, post, cmds),
        PlaybackAction::SkipTo(pos) => skip_to_post(pos, pre, post, cmds),
        PlaybackAction::UpdatePosition(position) => update_position_post(
            position,
            pre,
            post,
            cmds,
        ),
        PlaybackAction::VolumeChanged(volume) => update_volume_post(volume, pre, post, cmds),
        PlaybackAction::PlayNext => play_next_post(pre, post, cmds),
        PlaybackAction::BackendError => play_next_post(pre, post, cmds),
        PlaybackAction::Seek(position) => seek_position_post(position, pre, post, cmds),
        PlaybackAction::SeekBy(offset, direction) => seek_post(offset, direction, pre, post, cmds),
        PlaybackAction::Repeat(mode) => set_repeat_mode_post(mode, pre, post, cmds),
        PlaybackAction::ToggleRepeatMode => set_repeat_mode_post(
            next_repeat_mode(pre.queue_view().repeat()),
            pre,
            post,
            cmds,
        ),
        PlaybackAction::SetShuffle(shuffle) => set_shuffle_post(shuffle, pre, post, cmds),
        PlaybackAction::Raise => unchanged(pre, post) && cmds == seq![CommandView::Present],
    }
}

impl AudioPlayer {
    /// The engine's invariant: queue and state are valid, the state's
    /// current song is the song at the queue's cursor, and a player that
    /// is not stopped has a current song.
    pub closed spec fn wf(self) -> bool {
        &&& self.queue.wf()
        &&& self.state.wf()
        &&& self.state.song() == self.queue.current()
        &&& self.state.playback() != PlaybackState::Stopped ==> self.queue.current().is_some()
    }

    pub closed spec fn queue_view(self) -> Queue {
        self.queue
    }

    pub closed spec fn state_view(self) -> PlayerState {
        self.state
    }

    /// What the invariant gives to callers.
    pub proof fn lemma_wf(self)
        requires
            self.wf(),
        ensures
            self.queue_view().wf(),
            self.state_view().wf(),
            self.state_view().song() == self.queue_view().current(),
            self.state_view().playback() != PlaybackState::Stopped
                ==> self.queue_view().current().is_some(),
            duration_of(self.state_view().song()) > 0 ==> self.state_view().elapsed()
                <= duration_of(self.state_view().song()),
    {
        self.state.lemma_wf();
    }

    /// An engine with an empty queue, stopped, at full volume.
    pub fn new() -> (r: AudioPlayer)
        ensures
            r.wf(),
            r.queue_view().entries() == Seq::<SongView>::empty(),
            r.queue_view().cursor().is_none(),
            r.queue_view().repeat() == RepeatMode::Consecutive,
            !r.queue_view().is_shuffled(),
            r.state_view().playback() == PlaybackState::Stopped,
            r.state_view().elapsed() == 0,
            r.state_view().song().is_none(),
            r.state_view().loudness() == FULL_VOLUME,
    {
        AudioPlayer { queue: Queue::new(), state: PlayerState::new(FULL_VOLUME) }
    }

    pub fn queue(&self) -> (r: &Queue)
        ensures
            *r == self.queue_view(),
    {
        &self.queue
    }

    pub fn state(&self) -> (r: &PlayerState)
        ensures
            *r == self.state_view(),
    {
        &self.state
    }

    /// Makes `song`, the song at the queue's cursor, the loaded song.
    fn change_song(&mut self, song: Option<Song>) -> (cmds: Vec<Command>)
        requires
            old(self).queue.wf(),
            opt_song(song) == old(self).queue.current(),
        ensures
            final(self).wf(),
            final(self).queue == old(self).queue,
            song_loaded(*old(self), *final(self), command_views(cmds@)),
    {
        let mut cmds = no_commands();
        match song {
            Some(next_song) => {
                let was_playing = self.state.playing();
                if was_playing {
                    push_transport(&mut cmds, PlaybackState::Paused);
                }
                push_command(&mut cmds, Command::SongChanged(next_song.clone()));
                push_command(&mut cmds, Command::SetSongUri(next_song.uri()));
                push_command(&mut cmds, Command::Seek(0));
                self.state.set_current_song(Some(next_song));
                if was_playing {
                    push_transport(&mut cmds, PlaybackState::Playing);
                }
                assert(command_views(cmds@) =~= load_commands(next_song@, was_playing));
            },
            None => {
                self.state.set_current_song(None);
                self.state.set_playback_state(PlaybackState::Stopped);
                push_transport(&mut cmds, PlaybackState::Stopped);
                assert(command_views(cmds@) =~= transport_commands(PlaybackState::Stopped));
            },
        }
        cmds
    }

    /// Enters a transport state, whatever state the player was in. A
    /// player without a current song first takes the queue's next song;
    /// with nothing to take it stays stopped.
    pub fn set_playback_state(&mut self, state: PlaybackState) -> (cmds: Vec<Command>)
        requires
            old(self).wf(),
        ensures
            final(self).wf(),
            set_playback_state_post(state, *old(self), *final(self), command_views(cmds@)),
    {
        let mut cmds = no_commands();
        if self.state.current_song().is_none() {
            match self.queue.next_song() {
                Some(next_song) => {
                    push_command(&mut cmds, Command::SongChanged(next_song.clone()));
                    push_command(&mut cmds, Command::SetSongUri(next_song.uri()));
                    self.state.set_current_song(Some(next_song));
                },
                None => {
                    self.state.set_current_song(None);
                    return cmds;
                },
            }
        }
        self.state.set_playback_state(state);
        push_transport(&mut cmds, state);
        proof {
            if old(self).state.song().is_none() {
                assert(command_views(cmds@) =~= start_commands(
                    self.queue.current().unwrap(),
                    state,
                ));
            } else {
                assert(command_views(cmds@) =~= transport_commands(state));
            }
        }
        cmds
    }

    /// Starts or resumes playback on behalf of the user interface. A
    /// player that is playing is left alone.
    pub fn play(&mut self) -> (cmds: Vec<Command>)
        requires
            old(self).wf(),
        ensures
            final(self).wf(),
            play_post(*old(self), *final(self), command_views(cmds@)),
    {
        if self.state.playing() {
            no_commands()
        } else {
            self.set_playback_state(PlaybackState::Playing)
        }
    }

    /// Pauses a player that is playing on behalf of the user interface;
    /// any other is left alone.
    pub fn pause(&mut self) -> (cmds: Vec<Command>)
        requires
            old(self).wf(),
        ensures
            final(self).wf(),
            pause_post(*old(self), *final(self), command_views(cmds@)),
    {
        if self.state.playing() {
            self.set_playback_state(PlaybackState::Paused)
        } else {
            no_commands()
        }
    }

    /// Stops the player.
    pub fn stop(&mut self) -> (cmds: Vec<Command>)
        requires
            old(self).wf(),
        ensures
            final(self).wf(),
            set_playback_state_post(
                PlaybackState::Stopped,
                *old(self),
                *final(self),
                command_views(cmds@),
            ),
    {
        self.set_playback_state(PlaybackState::Stopped)
    }

    /// Pauses a player that is playing, and starts any other as
    /// [`AudioPlayer::play`] does.
    pub fn toggle_play(&mut self) -> (cmds: Vec<Command>)
        requires
            old(self).wf(),
        ensures
            final(self).wf(),
            toggle_play_post(*old(self), *final(self), command_views(cmds@)),
    {
        if self.state.playing() {
            self.pause()
        } else {
            self.play()
        }
    }

    /// Moves on to the queue's next song under the repeat mode and loads
    /// it, keeping the transport state. With the queue exhausted the
    /// current song is cleared and the player stops.
    pub fn skip_next(&mut self) -> (cmds: Vec<Command>)
        requires
            old(self).wf(),
        ensures
            final(self).wf(),
            skip_next_post(*old(self), *final(self), command_views(cmds@)),
    {
        let next = self.queue.next_song();
        self.change_song(next)
    }

    /// Goes back. Ten seconds or more into the current song this starts
    /// the song over. Earlier than that it moves to the previous song of
    /// the queue and loads it, keeping the transport state. At the first
    /// song, or without a current song, it does nothing.
    pub fn skip_previous(&mut self) -> (cmds: Vec<Command>)
        requires
            old(self).wf(),
        ensures
            final(self).wf(),
            skip_previous_post(*old(self), *final(self), command_views(cmds@)),
    {
        if self.state.current_song().is_none() {
            return no_commands();
        }
        if self.state.position() >= RESTART_THRESHOLD {
            let mut cmds = no_commands();
            self.state.set_position(0);
            push_command(&mut cmds, Command::Seek(0));
            assert(command_views(cmds@) =~= seq![CommandView::Seek(0)]);
            return cmds;
        }
        if self.queue.is_first_song() {
            return no_commands();
        }
        let previous = self.queue.previous_song();
        self.change_song(previous)
    }

    /// Jumps to the song at effective position `pos` and loads it, keeping
    /// the transport state. A position past the end clears the current
    /// song and stops the player.
    pub fn skip_to(&mut self, pos: u32) -> (cmds: Vec<Command>)
        requires
            old(self).wf(),
        ensures
            final(self).wf(),
            skip_to_post(pos, *old(self), *final(self), command_views(cmds@)),
    {
        let song = self.queue.skip_song(pos);
        self.change_song(song)
    }

    /// Handles the end of the current song. Under repeat-one the same song
    /// is played again from its start; otherwise the engine moves on as
    /// [`AudioPlayer::skip_next`] does, which stops the player when the
    /// queue is exhausted.
    pub fn play_next(&mut self) -> (cmds: Vec<Command>)
        requires
            old(self).wf(),
        ensures
            final(self).wf(),
            play_next_post(*old(self), *final(self), command_views(cmds@)),
    {
        let repeat_one = match self.queue.repeat_mode() {
            RepeatMode::RepeatOne => true,
            _ => false,
        };
        if repeat_one && self.queue.current_song_index().is_some() {
            let mut cmds = no_commands();
            let was_playing = self.state.playing();
            self.state.set_position(0);
            push_command(&mut cmds, Command::Seek(0));
            if was_playing {
                push_command(&mut cmds, Command::Play);
            } else {
                self.state.set_playback_state(PlaybackState::Playing);
                push_transport(&mut cmds, PlaybackState::Playing);
            }
            assert(command_views(cmds@) =~= replay_commands(old(self).state.playback()));
            return cmds;
        }
        self.skip_next()
    }

    /// Moves the position to `target`, which the caller has held to the
    /// duration, and tells the backend.
    fn seek_to(&mut self, target: u64) -> (cmds: Vec<Command>)
        requires
            old(self).wf(),
            target == clamp_position(target, duration_of(old(self).state.song())),
        ensures
            final(self).wf(),
            sought(target, *old(self), *final(self), command_views(cmds@)),
    {
        let mut cmds = no_commands();
        self.state.set_position(target);
        push_command(&mut cmds, Command::Seek(target));
        assert(command_views(cmds@) =~= seq![CommandView::Seek(target)]);
        cmds
    }

    /// Seeks by `offset` seconds from the current position. The target is
    /// held to the range from zero to the duration; forward seeking does
    /// nothing while the duration is unknown.
    pub fn seek(&mut self, offset: u64, direction: SeekDirection) -> (cmds: Vec<Command>)
        requires
            old(self).wf(),
        ensures
            final(self).wf(),
            seek_post(offset, direction, *old(self), *final(self), command_views(cmds@)),
    {
        let position = self.state.position();
        let duration = self.state.duration();
        match seek_destination(position, duration, offset, direction) {
            Some(target) => self.seek_to(target),
            None => no_commands(),
        }
    }

    /// Seeks to the start of the current song.
    pub fn seek_start(&mut self) -> (cmds: Vec<Command>)
        requires
            old(self).wf(),
        ensures
            final(self).wf(),
            sought(0, *old(self), *final(self), command_views(cmds@)),
    {
        self.seek_to(0)
    }

    /// Seeks one step back.
    pub fn seek_backwards(&mut self) -> (cmds: Vec<Command>)
        requires
            old(self).wf(),
        ensures
            final(self).wf(),
            seek_post(
                SEEK_STEP,
                SeekDirection::Backwards,
                *old(self),
                *final(self),
                command_views(cmds@),
            ),
    {
        self.seek(SEEK_STEP, SeekDirection::Backwards)
    }

    /// Seeks one step forward.
    pub fn seek_forward(&mut self) -> (cmds: Vec<Command>)
        requires
            old(self).wf(),
        ensures
            final(self).wf(),
            seek_post(
                SEEK_STEP,
                SeekDirection::Forward,
                *old(self),
                *final(self),
                command_views(cmds@),
            ),
    {
        self.seek(SEEK_STEP, SeekDirection::Forward)
    }

    /// Seeks to `position`, held to the duration when that is known.
    pub fn seek_position(&mut self, position: u64) -> (cmds: Vec<Command>)
        requires
            old(self).wf(),
        ensures
            final(self).wf(),
            seek_position_post(position, *old(self), *final(self), command_views(cmds@)),
    {
        let duration = self.state.duration();
        let target = if duration > 0 && position > duration {
            duration
        } else {
            position
        };
        self.seek_to(target)
    }

    /// Takes a position report of the backend.
    pub fn update_position(&mut self, position: u64) -> (cmds: Vec<Command>)
        requires
            old(self).wf(),
        ensures
            final(self).wf(),
            update_position_post(position, *old(self), *final(self), command_views(cmds@)),
    {
        let mut cmds = no_commands();
        self.state.set_position(position);
        let written = self.state.position();
        push_command(&mut cmds, Command::PositionChanged(written));
        assert(command_views(cmds@) =~= seq![CommandView::PositionChanged(written)]);
        cmds
    }

    /// Takes a volume report of the backend.
    pub fn update_volume(&mut self, volume: u64) -> (cmds: Vec<Command>)
        requires
            old(self).wf(),
        ensures
            final(self).wf(),
            update_volume_post(volume, *old(self), *final(self), command_views(cmds@)),
    {
        self.state.set_volume(volume);
        no_commands()
    }

    /// Asks the backend for a volume. The state follows when the backend
    /// reports the change.
    pub fn set_volume(&mut self, volume: u64) -> (cmds: Vec<Command>)
        requires
            old(self).wf(),
        ensures
            final(self).wf(),
            unchanged(*old(self), *final(self)),
            command_views(cmds@) == seq![CommandView::SetVolume(volume)],
    {
        let mut cmds = no_commands();
        push_command(&mut cmds, Command::SetVolume(volume));
        assert(command_views(cmds@) =~= seq![CommandView::SetVolume(volume)]);
        cmds
    }

    /// Sets the repeat mode.
    pub fn set_repeat_mode(&mut self, mode: RepeatMode) -> (cmds: Vec<Command>)
        requires
            old(self).wf(),
        ensures
            final(self).wf(),
            set_repeat_mode_post(mode, *old(self), *final(self), command_views(cmds@)),
    {
        let mut cmds = no_commands();
        let changed = self.queue.repeat_mode() != mode;
        self.queue.set_repeat_mode(mode);
        if changed {
            push_command(&mut cmds, Command::RepeatModeChanged(mode));
            assert(command_views(cmds@) =~= seq![CommandView::RepeatModeChanged(mode)]);
        }
        cmds
    }

    /// Steps to the next repeat mode: consecutive, repeat all, repeat one,
    /// and round again.
    pub fn toggle_repeat_mode(&mut self) -> (cmds: Vec<Command>)
        requires
            old(self).wf(),
        ensures
            final(self).wf(),
            set_repeat_mode_post(
                next_repeat_mode(old(self).queue_view().repeat()),
                *old(self),
                *final(self),
                command_views(cmds@),
            ),
    {
        let new_mode = match self.queue.repeat_mode() {
            RepeatMode::Consecutive => RepeatMode::RepeatAll,
            RepeatMode::RepeatAll => RepeatMode::RepeatOne,
            RepeatMode::RepeatOne => RepeatMode::Consecutive,
        };
        self.set_repeat_mode(new_mode)
    }

    /// Turns the shuffle on or off. The current song stays current.
    pub fn set_shuffle(&mut self, shuffle: bool) -> (cmds: Vec<Command>)
        requires
            old(self).wf(),
        ensures
            final(self).wf(),
            set_shuffle_post(shuffle, *old(self), *final(self), command_views(cmds@)),
    {
        self.queue.set_shuffle(shuffle);
        no_commands()
    }

    /// Asks the window to come to the front.
    pub fn present(&mut self) -> (cmds: Vec<Command>)
        requires
            old(self).wf(),
        ensures
            final(self).wf(),
            unchanged(*old(self), *final(self)),
            command_views(cmds@) == seq![CommandView::Present],
    {
        let mut cmds = no_commands();
        push_command(&mut cmds, Command::Present);
        assert(command_views(cmds@) =~= seq![CommandView::Present]);
        cmds
    }

    /// Handles one action and returns the commands to carry out, in order.
    pub fn process_action(&mut self, action: PlaybackAction) -> (cmds: Vec<Command>)
        requires
            old(self).wf(),
        ensures
            final(self).wf(),
            action_post(action, *old(self), *final(self), command_views(cmds@)),
    {
        match action {
            PlaybackAction::Play => self.set_playback_state(PlaybackState::Playing),
            PlaybackAction::Pause => self.set_playback_state(PlaybackState::Paused),
            PlaybackAction::Stop => self.set_playback_state(PlaybackState::Stopped),
            PlaybackAction::SkipPrevious => self.skip_previous(),
            PlaybackAction::SkipNext => self.skip_next(),
            PlaybackAction::SkipTo(pos) => self.skip_to(pos),
            PlaybackAction::UpdatePosition(position) => self.update_position(position),
            PlaybackAction::VolumeChanged(volume) => self.update_volume(volume),
            PlaybackAction::PlayNext => self.play_next(),
            PlaybackAction::BackendError => self.play_next(),
            PlaybackAction::Seek(position) => self.seek_position(position),
            PlaybackAction::SeekBy(offset, direction) => self.seek(offset, direction),
            PlaybackAction::Repeat(mode) => self.set_repeat_mode(mode),
            PlaybackAction::ToggleRepeatMode => self.toggle_repeat_mode(),
            PlaybackAction::SetShuffle(shuffle) => self.set_shuffle(shuffle),
            PlaybackAction::Raise => self.present(),
        }
    }

    /// Appends a song to the queue. The sentinel song is refused. Returns
    /// whether the queue grew; playback is not touched.
    pub fn add_song(&mut self, song: Song) -> (added: bool)
        requires
            old(self).wf(),
        ensures
            final(self).wf(),
            added == (!is_sentinel(song@.data) && old(self).queue_view().len()
                < u32::MAX),
            added ==> final(self).queue_view().entries() == old(self).queue_view().entries().push(
                at_rest(song@),
            ),
            !added ==> same_queue(final(self).queue_view(), old(self).queue_view()),
            final(self).queue_view().repeat() == old(self).queue_view().repeat(),
            final(self).queue_view().is_shuffled() == old(self).queue_view().is_shuffled(),
            final(self).queue_view().current_backing() == old(self).queue_view().current_backing(),
            same_state(final(self).state_view(), old(self).state_view()),
    {
        self.queue.add_song(song)
    }

    /// Appends a batch of songs to the queue, leaving out the sentinel
    /// song. Returns how many were added; playback is not touched.
    pub fn add_songs(&mut self, songs: &Vec<Song>) -> (n_added: u32)
        requires
            old(self).wf(),
        ensures
            final(self).wf(),
            final(self).queue_view().entries() == old(self).queue_view().entries()
                + admitted(
                songs@.map_values(|s: Song| s@),
                (u32::MAX - old(self).queue_view().len()) as nat,
            ),
            n_added == final(self).queue_view().len() - old(self).queue_view().len(),
            final(self).queue_view().repeat() == old(self).queue_view().repeat(),
            final(self).queue_view().is_shuffled() == old(self).queue_view().is_shuffled(),
            final(self).queue_view().current_backing() == old(self).queue_view().current_backing(),
            same_state(final(self).state_view(), old(self).state_view()),
    {
        self.queue.add_songs(songs)
    }

    /// Appends a batch of songs as [`AudioPlayer::add_songs`] does and, when
    /// that gives an empty queue its first songs, makes the first of them
    /// the current song, loaded and ready to play. Returns how many songs
    /// were added, and the commands.
    pub fn queue_songs(&mut self, songs: &Vec<Song>) -> (r: (u32, Vec<Command>))
        requires
            old(self).wf(),
        ensures
            final(self).wf(),
            final(self).queue_view().entries() == old(self).queue_view().entries() + admitted(
                songs@.map_values(|s: Song| s@),
                (u32::MAX - old(self).queue_view().len()) as nat,
            ),
            r.0 == final(self).queue_view().len() - old(self).queue_view().len(),
            final(self).queue_view().repeat() == old(self).queue_view().repeat(),
            final(self).queue_view().is_shuffled() == old(self).queue_view().is_shuffled(),
            if old(self).queue_view().len() == 0 && r.0 > 0 {
                &&& final(self).queue_view().cursor() == Some(0u32)
                &&& song_loaded(*old(self), *final(self), command_views(r.1@))
            } else {
                &&& final(self).queue_view().current_backing()
                    == old(self).queue_view().current_backing()
                &&& same_state(final(self).state_view(), old(self).state_view())
                &&& command_views(r.1@) == nothing()
            },
    {
        let was_empty = self.queue.is_empty();
        let n_added = self.queue.add_songs(songs);
        if was_empty && n_added > 0 {
            let first = self.queue.skip_song(0);
            let cmds = self.change_song(first);
            (n_added, cmds)
        } else {
            (n_added, no_commands())
        }
    }

    /// Removes the song at effective position `pos`. When it is the
    /// current song, playback moves on as "next" does, under the repeat
    /// mode and in the effective order as they were before the removal:
    /// the song that "next" lands on is loaded with the transport state
    /// kept, or the player stops where the queue is exhausted. Where
    /// "next" lands on the removed song itself, the song that followed it
    /// in canonical order is taken, if there is one. Returns whether there
    /// is a song at `pos`, and the commands.
    pub fn remove_song_at(&mut self, pos: u32) -> (r: (bool, Vec<Command>))
        requires
            old(self).wf(),
        ensures
            final(self).wf(),
            r.0 == (pos < old(self).queue_view().len()),
            if r.0 {
                song_removed(
                    old(self).queue_view().order()[pos as int] as int,
                    *old(self),
                    *final(self),
                    command_views(r.1@),
                )
            } else {
                unchanged(*old(self), *final(self)) && command_views(r.1@) == nothing()
            },
    {
        proof {
            self.queue.lemma_wf();
        }
        if pos >= self.queue.n_songs() {
            return (false, no_commands());
        }
        let was_current = self.queue.current_song_index() == Some(pos);
        if was_current {
            let _ = self.queue.next_song();
        }
        let _ = self.queue.remove_song_at(pos);
        if was_current {
            let current = self.queue.current_song();
            let cmds = self.change_song(current);
            (true, cmds)
        } else {
            (true, no_commands())
        }
    }

    /// Removes the first song, in canonical order, that is the same song
    /// as `song`, as [`AudioPlayer::remove_song_at`] removes the song at
    /// its position. Returns whether one was found, and the commands.
    pub fn remove_song(&mut self, song: &Song) -> (r: (bool, Vec<Command>))
        requires
            old(self).wf(),
        ensures
            final(self).wf(),
            match first_match_from(old(self).queue_view().entries(), song@, 0) {
                Some(k) => r.0 && song_removed(k, *old(self), *final(self), command_views(r.1@)),
                None => {
                    &&& !r.0
                    &&& unchanged(*old(self), *final(self))
                    &&& command_views(r.1@) == nothing()
                },
            },
    {
        match self.queue.first_match_position(song) {
            Some(pos) => self.remove_song_at(pos),
            None => (false, no_commands()),
        }
    }

    /// Sets the selection mark of the song at effective position `pos`.
    /// Returns whether there is such a song; playback is not touched.
    pub fn set_song_selected(&mut self, pos: u32, selected: bool) -> (found: bool)
        requires
            old(self).wf(),
        ensures
            final(self).wf(),
            final(self).queue_view().order() == old(self).queue_view().order(),
            final(self).queue_view().cursor() == old(self).queue_view().cursor(),
            final(self).queue_view().repeat() == old(self).queue_view().repeat(),
            final(self).queue_view().is_shuffled() == old(self).queue_view().is_shuffled(),
            found == (pos < old(self).queue_view().len()),
            final(self).queue_view().entries() == if found {
                old(self).queue_view().entries().update(
                    old(self).queue_view().order()[pos as int] as int,
                    marked(
                        old(self).queue_view().entries()[old(self).queue_view().order()[pos as int] as int],
                        selected,
                    ),
                )
            } else {
                old(self).queue_view().entries()
            },
            final(self).state_view().playback() == old(self).state_view().playback(),
            final(self).state_view().elapsed() == old(self).state_view().elapsed(),
            final(self).state_view().loudness() == old(self).state_view().loudness(),
    {
        proof {
            self.queue.lemma_wf();
        }
        let found = self.queue.set_song_selected(pos, selected);
        proof {
            self.queue.lemma_wf();
        }
        let current = self.queue.current_song();
        self.state.refresh_song(current);
        found
    }

    /// Clears the selection mark of every song; playback is not touched.
    pub fn unselect_all_songs(&mut self)
        requires
            old(self).wf(),
        ensures
            final(self).wf(),
            final(self).queue_view().order() == old(self).queue_view().order(),
            final(self).queue_view().cursor() == old(self).queue_view().cursor(),
            final(self).queue_view().repeat() == old(self).queue_view().repeat(),
            final(self).queue_view().is_shuffled() == old(self).queue_view().is_shuffled(),
            final(self).queue_view().entries() == old(self).queue_view().entries().map_values(
                |s: SongView| marked(s, false),
            ),
            final(self).state_view().playback() == old(self).state_view().playback(),
            final(self).state_view().elapsed() == old(self).state_view().elapsed(),
            final(self).state_view().loudness() == old(self).state_view().loudness(),
    {
        proof {
            self.queue.lemma_wf();
        }
        self.queue.unselect_all_songs();
        proof {
            self.queue.lemma_wf();
        }
        let current = self.queue.current_song();
        self.state.refresh_song(current);
    }

    /// Empties the queue, clears the current song and stops the player.
    pub fn clear_queue(&mut self) -> (cmds: Vec<Command>)
        requires
            old(self).wf(),
        ensures
            final(self).wf(),
            final(self).queue_view().entries() == Seq::<SongView>::empty(),
            final(self).queue_view().cursor().is_none(),
            final(self).queue_view().repeat() == old(self).queue_view().repeat(),
            final(self).queue_view().is_shuffled() == old(self).queue_view().is_shuffled(),
            song_loaded(*old(self), *final(self), command_views(cmds@)),
    {
        self.queue.clear();
        self.change_song(None)
    }
}

impl Default for AudioPlayer {
    fn default() -> (r: AudioPlayer)
        ensures
            r.wf(),
            r.queue_view().entries() == Seq::<SongView>::empty(),
            r.queue_view().cursor().is_none(),
            r.state_view().playback() == PlaybackState::Stopped,
            r.state_view().song().is_none(),
    {
        AudioPlayer::new()
    }
}

} // verus!
