use amberol::audio::player::seek_destination;
use amberol::audio::player::AudioPlayer;
use amberol::audio::player::Command;
use amberol::audio::player::PlaybackAction;
use amberol::audio::player::PlaybackState;
use amberol::audio::player::RepeatMode;
use amberol::audio::player::SeekDirection;
use amberol::audio::song::Song;
use amberol::audio::song::SongData;
use amberol::audio::song::TaggedFile;
use amberol::audio::state::PlayerState;
use amberol::audio::state::FULL_VOLUME;

fn song(name: &str, duration: u64) -> Song {
    let file = TaggedFile { primary_tag: None, tags: Vec::new(), duration };
    let uri = format!("file:///music/{}", name);
    Song::new(SongData::from_uri(&uri, &Some(name.to_string()), &Some(file)))
}

/// The queue of the scenarios: A of 90 s and B of 120 s.
fn player_a_b() -> AudioPlayer {
    let mut player = AudioPlayer::new();
    assert!(player.add_song(song("A", 90)));
    assert!(player.add_song(song("B", 120)));
    player
}

fn current(player: &AudioPlayer) -> Option<String> {
    player.state().current_song().map(|s| s.uri().replace("file:///music/", ""))
}

fn describe(cmds: &[Command]) -> Vec<String> {
    cmds.iter()
        .map(|c| match c {
            Command::SetSongUri(uri) => format!("load {}", uri.replace("file:///music/", "")),
            Command::Play => "play".to_string(),
            Command::Pause => "pause".to_string(),
            Command::Stop => "stop".to_string(),
            Command::Seek(p) => format!("seek {}", p),
            Command::SetVolume(v) => format!("volume {}", v),
            Command::SongChanged(s) => format!("song {}", s.uri().replace("file:///music/", "")),
            Command::PlaybackStateChanged(s) => format!("state {:?}", s),
            Command::PositionChanged(p) => format!("position {}", p),
            Command::RepeatModeChanged(m) => format!("repeat {:?}", m),
            Command::Present => "present".to_string(),
        })
        .collect()
}

#[test]
fn new_player_is_stopped_and_empty() {
    let player = AudioPlayer::new();
    assert!(player.queue().is_empty());
    assert_eq!(player.state().playback_state(), PlaybackState::Stopped);
    assert!(!player.state().playing());
    assert!(player.state().current_song().is_none());
    assert_eq!(player.state().position(), 0);
    assert_eq!(player.state().duration(), 0);
    assert_eq!(player.state().volume(), FULL_VOLUME);
    assert_eq!(f64::from_bits(FULL_VOLUME), 1.0);
    assert_eq!(player.state().title(), None);
    let player = AudioPlayer::default();
    assert!(player.queue().is_empty());
    assert_eq!(PlaybackState::default(), PlaybackState::Stopped);
    assert_eq!(RepeatMode::default(), RepeatMode::Consecutive);
    let state = PlayerState::default();
    assert_eq!(state.playback_state(), PlaybackState::Stopped);
    assert_eq!(state.volume(), FULL_VOLUME);
    assert_eq!(PlayerState::new(7).volume(), 7);
}

#[test]
fn scenario_consecutive_play_through_two_songs() {
    let mut player = player_a_b();
    let cmds = player.process_action(PlaybackAction::Play);
    assert_eq!(current(&player), Some("A".to_string()));
    assert_eq!(player.state().playback_state(), PlaybackState::Playing);
    assert_eq!(describe(&cmds), vec!["song A", "load A", "state Playing", "play"]);
    assert_eq!(player.state().duration(), 90);
    assert!(player.state().current_song().unwrap().playing());

    let cmds = player.process_action(PlaybackAction::PlayNext);
    assert_eq!(current(&player), Some("B".to_string()));
    assert_eq!(player.state().playback_state(), PlaybackState::Playing);
    assert_eq!(
        describe(&cmds),
        vec!["state Paused", "pause", "song B", "load B", "seek 0", "state Playing", "play"]
    );
    assert_eq!(player.state().duration(), 120);
    assert_eq!(player.state().position(), 0);

    let cmds = player.process_action(PlaybackAction::PlayNext);
    assert_eq!(current(&player), None);
    assert_eq!(player.state().playback_state(), PlaybackState::Stopped);
    assert_eq!(describe(&cmds), vec!["state Stopped", "stop"]);
    assert_eq!(player.queue().current_song_index(), None);
}

#[test]
fn scenario_repeat_all_wraps_after_the_last_song() {
    let mut player = player_a_b();
    player.process_action(PlaybackAction::Repeat(RepeatMode::RepeatAll));
    player.process_action(PlaybackAction::Play);
    player.process_action(PlaybackAction::PlayNext);
    assert_eq!(current(&player), Some("B".to_string()));
    player.process_action(PlaybackAction::PlayNext);
    assert_eq!(current(&player), Some("A".to_string()));
    assert_eq!(player.state().playback_state(), PlaybackState::Playing);
    assert_eq!(player.queue().current_song_index(), Some(0));
}

fn playing_b_at(position: u64) -> AudioPlayer {
    let mut player = player_a_b();
    player.process_action(PlaybackAction::Play);
    player.process_action(PlaybackAction::SkipNext);
    player.process_action(PlaybackAction::UpdatePosition(position));
    assert_eq!(current(&player), Some("B".to_string()));
    assert_eq!(player.state().position(), position);
    player
}

#[test]
fn scenario_skip_previous_early_in_the_song_moves_to_the_previous_song() {
    let mut player = playing_b_at(5);
    let cmds = player.process_action(PlaybackAction::SkipPrevious);
    assert_eq!(current(&player), Some("A".to_string()));
    assert_eq!(player.queue().current_song_index(), Some(0));
    assert_eq!(player.state().playback_state(), PlaybackState::Playing);
    assert_eq!(player.state().position(), 0);
    assert_eq!(
        describe(&cmds),
        vec!["state Paused", "pause", "song A", "load A", "seek 0", "state Playing", "play"]
    );
}

#[test]
fn skip_previous_just_below_the_threshold_moves_to_the_previous_song() {
    let mut player = playing_b_at(9);
    player.process_action(PlaybackAction::SkipPrevious);
    assert_eq!(current(&player), Some("A".to_string()));
}

#[test]
fn skip_previous_at_the_threshold_restarts_the_song() {
    for position in [10u64, 15] {
        let mut player = playing_b_at(position);
        let cmds = player.process_action(PlaybackAction::SkipPrevious);
        assert_eq!(current(&player), Some("B".to_string()));
        assert_eq!(player.queue().current_song_index(), Some(1));
        assert_eq!(player.state().position(), 0);
        assert_eq!(describe(&cmds), vec!["seek 0"]);
    }
}

#[test]
fn scenario_skip_previous_late_in_the_song_restarts_it() {
    let mut player = playing_b_at(30);
    let cmds = player.process_action(PlaybackAction::SkipPrevious);
    assert_eq!(current(&player), Some("B".to_string()));
    assert_eq!(player.queue().current_song_index(), Some(1));
    assert_eq!(player.state().position(), 0);
    assert_eq!(player.state().playback_state(), PlaybackState::Playing);
    assert_eq!(describe(&cmds), vec!["seek 0"]);
}

#[test]
fn skip_previous_at_the_first_song_does_nothing() {
    let mut player = player_a_b();
    player.play();
    player.update_position(3);
    let cmds = player.skip_previous();
    assert!(cmds.is_empty());
    assert_eq!(current(&player), Some("A".to_string()));
    assert_eq!(player.state().position(), 3);
    assert_eq!(player.state().playback_state(), PlaybackState::Playing);
}

#[test]
fn skip_previous_without_a_current_song_does_nothing() {
    let mut player = player_a_b();
    let cmds = player.skip_previous();
    assert!(cmds.is_empty());
    assert_eq!(current(&player), None);
}

#[test]
fn seek_forward_beyond_the_duration_stops_at_the_duration() {
    let mut player = AudioPlayer::new();
    player.add_song(song("long", 180));
    player.play();
    player.update_position(20);
    let cmds = player.process_action(PlaybackAction::SeekBy(1000, SeekDirection::Forward));
    assert_eq!(player.state().position(), 180);
    assert_eq!(describe(&cmds), vec!["seek 180"]);
    let cmds = player.seek(u64::MAX, SeekDirection::Forward);
    assert_eq!(player.state().position(), 180);
    assert_eq!(describe(&cmds), vec!["seek 180"]);
}

#[test]
fn seek_destination_formulas() {
    assert_eq!(seek_destination(20, 180, 10, SeekDirection::Forward), Some(30));
    assert_eq!(seek_destination(170, 180, 10, SeekDirection::Forward), Some(180));
    assert_eq!(seek_destination(171, 180, 10, SeekDirection::Forward), Some(180));
    assert_eq!(seek_destination(0, 180, 1000, SeekDirection::Forward), Some(180));
    assert_eq!(seek_destination(20, 0, 10, SeekDirection::Forward), None);
    assert_eq!(seek_destination(u64::MAX, 5, u64::MAX, SeekDirection::Forward), Some(5));
    assert_eq!(seek_destination(20, 180, 10, SeekDirection::Backwards), Some(10));
    assert_eq!(seek_destination(10, 180, 10, SeekDirection::Backwards), Some(0));
    assert_eq!(seek_destination(5, 180, 10, SeekDirection::Backwards), Some(0));
    assert_eq!(seek_destination(5, 0, 10, SeekDirection::Backwards), Some(0));
    assert_eq!(seek_destination(25, 0, 10, SeekDirection::Backwards), Some(15));
}

#[test]
fn seek_steps_move_by_ten_seconds() {
    let mut player = AudioPlayer::new();
    player.add_song(song("long", 180));
    player.play();
    player.update_position(50);
    assert_eq!(describe(&player.seek_forward()), vec!["seek 60"]);
    assert_eq!(player.state().position(), 60);
    assert_eq!(describe(&player.seek_backwards()), vec!["seek 50"]);
    player.update_position(4);
    assert_eq!(describe(&player.seek_backwards()), vec!["seek 0"]);
    assert_eq!(player.state().position(), 0);
    player.update_position(77);
    assert_eq!(describe(&player.seek_start()), vec!["seek 0"]);
    assert_eq!(player.state().position(), 0);
}

#[test]
fn seek_forward_does_nothing_while_the_duration_is_unknown() {
    let mut player = AudioPlayer::new();
    player.add_song(song("stream", 0));
    player.play();
    player.update_position(500);
    assert_eq!(player.state().position(), 500);
    let cmds = player.seek_forward();
    assert!(cmds.is_empty());
    assert_eq!(player.state().position(), 500);
    assert_eq!(describe(&player.seek_backwards()), vec!["seek 490"]);
}

#[test]
fn seek_to_a_position_is_held_to_the_duration() {
    let mut player = player_a_b();
    player.play();
    assert_eq!(describe(&player.process_action(PlaybackAction::Seek(42))), vec!["seek 42"]);
    assert_eq!(player.state().position(), 42);
    assert_eq!(describe(&player.seek_position(91)), vec!["seek 90"]);
    assert_eq!(player.state().position(), 90);
}

#[test]
fn position_reports_are_held_to_the_duration() {
    let mut player = player_a_b();
    player.play();
    let cmds = player.process_action(PlaybackAction::UpdatePosition(89));
    assert_eq!(player.state().position(), 89);
    assert_eq!(describe(&cmds), vec!["position 89"]);
    let cmds = player.process_action(PlaybackAction::UpdatePosition(95));
    assert_eq!(player.state().position(), 90);
    assert_eq!(describe(&cmds), vec!["position 90"]);
    assert_eq!(player.state().playback_state(), PlaybackState::Playing);
}

#[test]
fn play_on_an_empty_queue_stays_stopped() {
    let mut player = AudioPlayer::new();
    let cmds = player.process_action(PlaybackAction::Play);
    assert!(cmds.is_empty());
    assert_eq!(player.state().playback_state(), PlaybackState::Stopped);
    assert_eq!(current(&player), None);
}

#[test]
fn play_while_playing_does_nothing() {
    let mut player = player_a_b();
    player.play();
    player.update_position(7);
    let cmds = player.play();
    assert!(cmds.is_empty());
    assert_eq!(player.state().position(), 7);
    assert_eq!(current(&player), Some("A".to_string()));
}

#[test]
fn pause_and_resume_keep_song_and_position() {
    let mut player = player_a_b();
    player.play();
    player.update_position(12);
    let cmds = player.process_action(PlaybackAction::Pause);
    assert_eq!(describe(&cmds), vec!["state Paused", "pause"]);
    assert_eq!(player.state().playback_state(), PlaybackState::Paused);
    assert_eq!(player.state().position(), 12);
    assert!(player.pause().is_empty());
    let cmds = player.process_action(PlaybackAction::Play);
    assert_eq!(describe(&cmds), vec!["state Playing", "play"]);
    assert_eq!(player.state().playback_state(), PlaybackState::Playing);
    assert_eq!(current(&player), Some("A".to_string()));
    assert_eq!(player.state().position(), 12);
}

#[test]
fn pause_while_stopped_does_nothing() {
    let mut player = player_a_b();
    assert!(player.pause().is_empty());
    assert_eq!(player.state().playback_state(), PlaybackState::Stopped);
    assert_eq!(current(&player), None);
}

#[test]
fn stop_keeps_the_current_song() {
    let mut player = player_a_b();
    player.play();
    let cmds = player.process_action(PlaybackAction::Stop);
    assert_eq!(describe(&cmds), vec!["state Stopped", "stop"]);
    assert_eq!(player.state().playback_state(), PlaybackState::Stopped);
    assert_eq!(current(&player), Some("A".to_string()));
    let cmds = player.play();
    assert_eq!(describe(&cmds), vec!["state Playing", "play"]);
}

#[test]
fn toggle_play_alternates() {
    let mut player = player_a_b();
    assert_eq!(describe(&player.toggle_play()), vec!["song A", "load A", "state Playing", "play"]);
    assert_eq!(describe(&player.toggle_play()), vec!["state Paused", "pause"]);
    assert_eq!(describe(&player.toggle_play()), vec!["state Playing", "play"]);
    assert!(player.state().playing());
}

#[test]
fn skip_next_while_stopped_loads_without_playing() {
    let mut player = player_a_b();
    let cmds = player.skip_next();
    assert_eq!(describe(&cmds), vec!["song A", "load A", "seek 0"]);
    assert_eq!(player.state().playback_state(), PlaybackState::Stopped);
    assert_eq!(current(&player), Some("A".to_string()));
}

#[test]
fn skip_next_while_paused_stays_paused() {
    let mut player = player_a_b();
    player.play();
    player.pause();
    let cmds = player.skip_next();
    assert_eq!(describe(&cmds), vec!["song B", "load B", "seek 0"]);
    assert_eq!(player.state().playback_state(), PlaybackState::Paused);
}

#[test]
fn skip_next_at_the_end_of_a_consecutive_queue_stops() {
    let mut player = player_a_b();
    player.play();
    player.skip_next();
    let cmds = player.skip_next();
    assert_eq!(describe(&cmds), vec!["state Stopped", "stop"]);
    assert_eq!(current(&player), None);
    assert_eq!(player.state().playback_state(), PlaybackState::Stopped);
    // Play starts over from the first song.
    player.play();
    assert_eq!(current(&player), Some("A".to_string()));
}

#[test]
fn skip_to_loads_the_song_at_the_position() {
    let mut player = player_a_b();
    let cmds = player.process_action(PlaybackAction::SkipTo(1));
    assert_eq!(describe(&cmds), vec!["song B", "load B", "seek 0"]);
    assert_eq!(current(&player), Some("B".to_string()));
    assert_eq!(player.queue().current_song_index(), Some(1));
    assert_eq!(player.state().playback_state(), PlaybackState::Stopped);
}

#[test]
fn skip_to_past_the_end_stops_the_player() {
    let mut player = player_a_b();
    player.play();
    let cmds = player.skip_to(2);
    assert_eq!(describe(&cmds), vec!["state Stopped", "stop"]);
    assert_eq!(current(&player), None);
    assert_eq!(player.queue().current_song_index(), None);
    assert_eq!(player.state().playback_state(), PlaybackState::Stopped);
}

#[test]
fn end_of_stream_under_repeat_one_replays_the_song() {
    let mut player = player_a_b();
    player.set_repeat_mode(RepeatMode::RepeatOne);
    player.play();
    player.update_position(90);
    let cmds = player.process_action(PlaybackAction::PlayNext);
    assert_eq!(describe(&cmds), vec!["seek 0", "play"]);
    assert_eq!(current(&player), Some("A".to_string()));
    assert_eq!(player.queue().current_song_index(), Some(0));
    assert_eq!(player.state().position(), 0);
    assert_eq!(player.state().playback_state(), PlaybackState::Playing);
}

#[test]
fn end_of_stream_under_repeat_one_while_paused_resumes() {
    let mut player = player_a_b();
    player.set_repeat_mode(RepeatMode::RepeatOne);
    player.play();
    player.pause();
    let cmds = player.play_next();
    assert_eq!(describe(&cmds), vec!["seek 0", "state Playing", "play"]);
    assert!(player.state().playing());
}

#[test]
fn skip_next_under_repeat_one_reloads_the_song() {
    let mut player = player_a_b();
    player.set_repeat_mode(RepeatMode::RepeatOne);
    player.skip_to(1);
    let cmds = player.skip_next();
    assert_eq!(describe(&cmds), vec!["song B", "load B", "seek 0"]);
    assert_eq!(player.queue().current_song_index(), Some(1));
}

#[test]
fn toggle_repeat_mode_goes_round() {
    let mut player = AudioPlayer::new();
    let cmds = player.process_action(PlaybackAction::ToggleRepeatMode);
    assert_eq!(describe(&cmds), vec!["repeat RepeatAll"]);
    assert_eq!(player.queue().repeat_mode(), RepeatMode::RepeatAll);
    let cmds = player.toggle_repeat_mode();
    assert_eq!(describe(&cmds), vec!["repeat RepeatOne"]);
    let cmds = player.toggle_repeat_mode();
    assert_eq!(describe(&cmds), vec!["repeat Consecutive"]);
    assert_eq!(player.queue().repeat_mode(), RepeatMode::Consecutive);
}

#[test]
fn set_repeat_mode_tells_only_of_a_change() {
    let mut player = AudioPlayer::new();
    assert!(player.set_repeat_mode(RepeatMode::Consecutive).is_empty());
    assert_eq!(
        describe(&player.process_action(PlaybackAction::Repeat(RepeatMode::RepeatOne))),
        vec!["repeat RepeatOne"]
    );
    assert!(player.set_repeat_mode(RepeatMode::RepeatOne).is_empty());
}

#[test]
fn volume_reports_are_stored_and_requests_forwarded() {
    let mut player = AudioPlayer::new();
    let half = 0.5f64.to_bits();
    let cmds = player.process_action(PlaybackAction::VolumeChanged(half));
    assert!(cmds.is_empty());
    assert_eq!(player.state().volume(), half);
    assert_eq!(f64::from_bits(player.state().volume()), 0.5);
    let quarter = 0.25f64.to_bits();
    let cmds = player.set_volume(quarter);
    assert_eq!(describe(&cmds), vec![format!("volume {}", quarter)]);
    assert_eq!(player.state().volume(), half);
}

#[test]
fn raise_asks_the_window_to_present_itself() {
    let mut player = player_a_b();
    let cmds = player.process_action(PlaybackAction::Raise);
    assert_eq!(describe(&cmds), vec!["present"]);
    assert_eq!(describe(&player.present()), vec!["present"]);
    assert_eq!(player.state().playback_state(), PlaybackState::Stopped);
}

#[test]
fn shuffle_keeps_the_current_song_playing() {
    for _ in 0..20 {
        let mut player = AudioPlayer::new();
        for name in ["a", "b", "c", "d", "e", "f"] {
            player.add_song(song(name, 60));
        }
        player.skip_to(4);
        player.play();
        player.update_position(33);
        let cmds = player.process_action(PlaybackAction::SetShuffle(true));
        assert!(cmds.is_empty());
        assert!(player.queue().shuffled());
        assert_eq!(current(&player), Some("e".to_string()));
        assert_eq!(player.queue().current_song().unwrap().uri(), "file:///music/e");
        assert_eq!(player.state().position(), 33);
        assert!(player.state().playing());
        player.set_shuffle(false);
        assert_eq!(current(&player), Some("e".to_string()));
        assert_eq!(player.queue().current_song_index(), Some(4));
    }
}

#[test]
fn adding_songs_does_not_touch_playback() {
    let mut player = player_a_b();
    player.play();
    player.update_position(5);
    assert!(player.add_song(song("C", 10)));
    assert!(!player.add_song(Song::empty()));
    assert_eq!(player.add_songs(&vec![song("D", 1), Song::empty(), song("E", 2)]), 2);
    assert_eq!(player.queue().n_songs(), 5);
    assert_eq!(current(&player), Some("A".to_string()));
    assert_eq!(player.state().position(), 5);
    assert!(player.state().playing());
}

#[test]
fn removing_the_current_song_moves_on_to_its_follower() {
    let mut player = player_a_b();
    player.play();
    let (removed, cmds) = player.remove_song(&song("A", 90));
    assert!(removed);
    assert_eq!(
        describe(&cmds),
        vec!["state Paused", "pause", "song B", "load B", "seek 0", "state Playing", "play"]
    );
    assert_eq!(current(&player), Some("B".to_string()));
    assert_eq!(player.queue().n_songs(), 1);
    assert_eq!(player.queue().current_song_index(), Some(0));
    assert!(player.state().playing());
}

#[test]
fn removing_the_current_last_song_stops_the_player() {
    let mut player = player_a_b();
    player.play();
    player.skip_next();
    let (removed, cmds) = player.remove_song(&song("B", 120));
    assert!(removed);
    assert_eq!(describe(&cmds), vec!["state Stopped", "stop"]);
    assert_eq!(current(&player), None);
    assert_eq!(player.state().playback_state(), PlaybackState::Stopped);
    assert_eq!(player.queue().n_songs(), 1);
}

#[test]
fn removing_another_song_does_not_touch_playback() {
    let mut player = player_a_b();
    player.play();
    player.update_position(8);
    let (removed, cmds) = player.remove_song(&song("B", 120));
    assert!(removed);
    assert!(cmds.is_empty());
    assert_eq!(current(&player), Some("A".to_string()));
    assert_eq!(player.state().position(), 8);
    let (removed, cmds) = player.remove_song(&song("Z", 1));
    assert!(!removed);
    assert!(cmds.is_empty());
}

#[test]
fn clear_queue_stops_and_forgets_the_song() {
    let mut player = player_a_b();
    player.play();
    let cmds = player.clear_queue();
    assert_eq!(describe(&cmds), vec!["state Stopped", "stop"]);
    assert!(player.queue().is_empty());
    assert_eq!(current(&player), None);
    assert_eq!(player.state().playback_state(), PlaybackState::Stopped);
    assert_eq!(player.state().position(), 0);
    assert!(player.play().is_empty());
}

#[test]
fn state_shows_the_labels_of_the_current_song() {
    let mut player = player_a_b();
    player.play();
    assert_eq!(player.state().title(), Some("Unknown title".to_string()));
    assert_eq!(player.state().artist(), Some("Unknown artist".to_string()));
    assert_eq!(player.state().album(), Some("Unknown album".to_string()));
}

#[test]
fn selection_does_not_touch_playback() {
    let mut player = player_a_b();
    player.play();
    player.update_position(11);
    assert!(player.set_song_selected(0, true));
    assert!(!player.set_song_selected(9, true));
    assert_eq!(player.queue().n_selected_songs(), 1);
    assert!(player.state().current_song().unwrap().selected());
    assert_eq!(player.state().position(), 11);
    assert!(player.state().playing());
    player.unselect_all_songs();
    assert_eq!(player.queue().n_selected_songs(), 0);
    assert!(!player.state().current_song().unwrap().selected());
    assert_eq!(player.state().position(), 11);
}

#[test]
fn queueing_into_an_empty_queue_readies_the_first_song() {
    let mut player = AudioPlayer::new();
    let (n_added, cmds) = player.queue_songs(&vec![Song::empty(), song("A", 90), song("B", 120)]);
    assert_eq!(n_added, 2);
    assert_eq!(describe(&cmds), vec!["song A", "load A", "seek 0"]);
    assert_eq!(current(&player), Some("A".to_string()));
    assert_eq!(player.state().playback_state(), PlaybackState::Stopped);
    assert_eq!(player.queue().current_song_index(), Some(0));
    // A queue that already has songs is only extended.
    player.play();
    player.update_position(4);
    let (n_added, cmds) = player.queue_songs(&vec![song("C", 1)]);
    assert_eq!(n_added, 1);
    assert!(cmds.is_empty());
    assert_eq!(current(&player), Some("A".to_string()));
    assert_eq!(player.state().position(), 4);
}

#[test]
fn queueing_nothing_into_an_empty_queue_does_nothing() {
    let mut player = AudioPlayer::new();
    let (n_added, cmds) = player.queue_songs(&vec![Song::empty()]);
    assert_eq!(n_added, 0);
    assert!(cmds.is_empty());
    assert_eq!(current(&player), None);
    assert!(player.queue().is_empty());
}

#[test]
fn remaining_time_of_the_current_song() {
    let mut player = player_a_b();
    assert_eq!(player.state().remaining(), 0);
    player.play();
    assert_eq!(player.state().remaining(), 90);
    player.update_position(30);
    assert_eq!(player.state().remaining(), 60);
    player.update_position(90);
    assert_eq!(player.state().remaining(), 0);
}

#[test]
fn a_backend_error_moves_on_like_the_end_of_a_song() {
    let mut player = player_a_b();
    player.play();
    let cmds = player.process_action(PlaybackAction::BackendError);
    assert_eq!(current(&player), Some("B".to_string()));
    assert_eq!(player.state().playback_state(), PlaybackState::Playing);
    assert_eq!(
        describe(&cmds),
        vec!["state Paused", "pause", "song B", "load B", "seek 0", "state Playing", "play"]
    );
    let cmds = player.process_action(PlaybackAction::BackendError);
    assert_eq!(describe(&cmds), vec!["state Stopped", "stop"]);
    assert_eq!(current(&player), None);
    assert_eq!(player.state().playback_state(), PlaybackState::Stopped);
}

#[test]
fn removing_the_current_last_song_under_repeat_all_wraps_to_the_first_song() {
    let mut player = player_a_b();
    player.set_repeat_mode(RepeatMode::RepeatAll);
    player.play();
    player.skip_next();
    assert_eq!(current(&player), Some("B".to_string()));
    let (removed, cmds) = player.remove_song(&song("B", 120));
    assert!(removed);
    assert_eq!(
        describe(&cmds),
        vec!["state Paused", "pause", "song A", "load A", "seek 0", "state Playing", "play"]
    );
    assert_eq!(current(&player), Some("A".to_string()));
    assert_eq!(player.queue().current_song_index(), Some(0));
    assert_eq!(player.queue().n_songs(), 1);
    assert!(player.state().playing());
}

#[test]
fn removing_the_current_song_moves_on_in_the_effective_order() {
    for _ in 0..20 {
        let mut player = AudioPlayer::new();
        for name in ["a", "b", "c", "d", "e", "f"] {
            player.add_song(song(name, 60));
        }
        player.set_shuffle(true);
        player.skip_to(2);
        player.play();
        let next = player.queue().song_at(3).unwrap().uri();
        let (removed, cmds) = player.remove_song_at(2);
        assert!(removed);
        assert_eq!(cmds.len(), 7);
        assert_eq!(player.state().current_song().unwrap().uri(), next);
        assert_eq!(player.queue().current_song().unwrap().uri(), next);
        assert_eq!(player.queue().n_songs(), 5);
        assert!(player.state().playing());
    }
}

#[test]
fn removing_the_only_song_under_repeat_all_stops_the_player() {
    let mut player = AudioPlayer::new();
    player.add_song(song("A", 90));
    player.set_repeat_mode(RepeatMode::RepeatAll);
    player.play();
    let (removed, cmds) = player.remove_song_at(0);
    assert!(removed);
    assert_eq!(describe(&cmds), vec!["state Stopped", "stop"]);
    assert_eq!(current(&player), None);
    assert!(player.queue().is_empty());
}

#[test]
fn removing_the_current_song_under_repeat_one_takes_its_follower() {
    let mut player = player_a_b();
    player.set_repeat_mode(RepeatMode::RepeatOne);
    player.play();
    let (removed, cmds) = player.remove_song_at(0);
    assert!(removed);
    assert_eq!(cmds.len(), 7);
    assert_eq!(current(&player), Some("B".to_string()));
    let (removed, cmds) = player.remove_song_at(0);
    assert!(removed);
    assert_eq!(describe(&cmds), vec!["state Stopped", "stop"]);
    assert_eq!(current(&player), None);
}

#[test]
fn removing_by_position_takes_the_copy_that_is_meant() {
    let mut player = AudioPlayer::new();
    for name in ["a", "b", "a"] {
        player.add_song(song(name, 60));
    }
    player.skip_to(2);
    player.play();
    // By identity the first copy leaves and the current one stays.
    let (removed, cmds) = player.remove_song(&song("a", 60));
    assert!(removed);
    assert!(cmds.is_empty());
    assert_eq!(player.queue().n_songs(), 2);
    assert_eq!(player.queue().current_song_index(), Some(1));
    // By position the current copy leaves; with nothing after it the
    // consecutive queue is exhausted.
    let (removed, cmds) = player.remove_song_at(1);
    assert!(removed);
    assert_eq!(describe(&cmds), vec!["state Stopped", "stop"]);
    assert_eq!(player.queue().n_songs(), 1);
    assert_eq!(player.queue().song_at(0).unwrap().uri(), "file:///music/b");
    let (removed, cmds) = player.remove_song_at(5);
    assert!(!removed);
    assert!(cmds.is_empty());
}

#[test]
fn a_request_to_play_while_playing_is_passed_on() {
    let mut player = player_a_b();
    player.play();
    player.update_position(7);
    let cmds = player.process_action(PlaybackAction::Play);
    assert_eq!(describe(&cmds), vec!["state Playing", "play"]);
    assert_eq!(player.state().position(), 7);
    assert_eq!(current(&player), Some("A".to_string()));
    assert!(player.state().playing());
}

#[test]
fn a_request_to_pause_while_stopped_pauses() {
    let mut player = player_a_b();
    player.skip_to(0);
    let cmds = player.process_action(PlaybackAction::Pause);
    assert_eq!(describe(&cmds), vec!["state Paused", "pause"]);
    assert_eq!(player.state().playback_state(), PlaybackState::Paused);
    assert_eq!(current(&player), Some("A".to_string()));
}

#[test]
fn a_request_for_a_state_without_a_current_song_takes_the_next_song() {
    let mut player = player_a_b();
    let cmds = player.process_action(PlaybackAction::Pause);
    assert_eq!(describe(&cmds), vec!["song A", "load A", "state Paused", "pause"]);
    assert_eq!(player.state().playback_state(), PlaybackState::Paused);
    assert_eq!(current(&player), Some("A".to_string()));
    let mut player = player_a_b();
    let cmds = player.process_action(PlaybackAction::Stop);
    assert_eq!(describe(&cmds), vec!["song A", "load A", "state Stopped", "stop"]);
    assert_eq!(player.state().playback_state(), PlaybackState::Stopped);
    assert_eq!(current(&player), Some("A".to_string()));
    let mut player = player_a_b();
    let cmds = player.set_playback_state(PlaybackState::Playing);
    assert_eq!(describe(&cmds), vec!["song A", "load A", "state Playing", "play"]);
}

#[test]
fn a_request_for_a_state_on_an_empty_queue_stays_stopped() {
    for action in [PlaybackAction::Play, PlaybackAction::Pause, PlaybackAction::Stop] {
        let mut player = AudioPlayer::new();
        let cmds = player.process_action(action);
        assert!(cmds.is_empty());
        assert_eq!(player.state().playback_state(), PlaybackState::Stopped);
        assert_eq!(current(&player), None);
    }
}
