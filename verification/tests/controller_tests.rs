use amberol::audio::inhibit_controller::InhibitController;
use amberol::audio::inhibit_controller::InhibitRequest;
use amberol::audio::mpris_controller::loop_status;
use amberol::audio::mpris_controller::micros;
use amberol::audio::mpris_controller::play_pause_action;
use amberol::audio::mpris_controller::playback_status;
use amberol::audio::mpris_controller::repeat_action;
use amberol::audio::mpris_controller::seek_action;
use amberol::audio::mpris_controller::LoopStatus;
use amberol::audio::mpris_controller::PlaybackStatus;
use amberol::audio::player::PlaybackAction;
use amberol::audio::player::PlaybackState;
use amberol::audio::player::RepeatMode;

#[test]
fn inhibition_is_asked_once_and_given_back_once() {
    let mut controller = InhibitController::new();
    assert_eq!(controller.cookie(), 0);
    assert_eq!(controller.set_playback_state(PlaybackState::Stopped), InhibitRequest::Nothing);
    assert_eq!(controller.set_playback_state(PlaybackState::Playing), InhibitRequest::Inhibit);
    controller.set_cookie(17);
    assert_eq!(controller.cookie(), 17);
    assert_eq!(controller.set_playback_state(PlaybackState::Playing), InhibitRequest::Nothing);
    assert_eq!(controller.cookie(), 17);
    assert_eq!(controller.set_playback_state(PlaybackState::Paused), InhibitRequest::Uninhibit(17));
    assert_eq!(controller.cookie(), 0);
    assert_eq!(controller.set_playback_state(PlaybackState::Stopped), InhibitRequest::Nothing);
    assert_eq!(controller.set_playback_state(PlaybackState::Playing), InhibitRequest::Inhibit);
}

#[test]
fn a_refused_inhibition_is_asked_again() {
    let mut controller = InhibitController::default();
    assert_eq!(controller.set_playback_state(PlaybackState::Playing), InhibitRequest::Inhibit);
    controller.set_cookie(0);
    assert_eq!(controller.set_playback_state(PlaybackState::Playing), InhibitRequest::Inhibit);
    assert_eq!(controller.set_playback_state(PlaybackState::Stopped), InhibitRequest::Nothing);
}

#[test]
fn transport_states_map_to_protocol_status() {
    assert_eq!(playback_status(PlaybackState::Playing), PlaybackStatus::Playing);
    assert_eq!(playback_status(PlaybackState::Paused), PlaybackStatus::Stopped);
    assert_eq!(playback_status(PlaybackState::Stopped), PlaybackStatus::Stopped);
}

#[test]
fn repeat_modes_map_to_loop_status_and_back() {
    assert_eq!(loop_status(RepeatMode::Consecutive), LoopStatus::NoLoop);
    assert_eq!(loop_status(RepeatMode::RepeatOne), LoopStatus::Track);
    assert_eq!(loop_status(RepeatMode::RepeatAll), LoopStatus::Playlist);
    assert_eq!(repeat_action(LoopStatus::NoLoop), PlaybackAction::Repeat(RepeatMode::Consecutive));
    assert_eq!(repeat_action(LoopStatus::Track), PlaybackAction::Repeat(RepeatMode::RepeatOne));
    assert_eq!(repeat_action(LoopStatus::Playlist), PlaybackAction::Repeat(RepeatMode::RepeatAll));
}

#[test]
fn play_pause_plays_unless_playing() {
    assert_eq!(play_pause_action(PlaybackStatus::Paused), PlaybackAction::Play);
    assert_eq!(play_pause_action(PlaybackStatus::Stopped), PlaybackAction::Play);
    assert_eq!(play_pause_action(PlaybackStatus::Playing), PlaybackAction::Pause);
}

#[test]
fn seconds_and_microseconds() {
    assert_eq!(micros(0), 0);
    assert_eq!(micros(90), 90_000_000);
    assert_eq!(micros(9_223_372_036_854), 9_223_372_036_854_000_000);
    assert_eq!(micros(9_223_372_036_855), i64::MAX);
    assert_eq!(micros(u64::MAX), i64::MAX);
    assert_eq!(seek_action(0), PlaybackAction::Seek(0));
    assert_eq!(seek_action(999_999), PlaybackAction::Seek(0));
    assert_eq!(seek_action(1_000_000), PlaybackAction::Seek(1));
    assert_eq!(seek_action(90_500_000), PlaybackAction::Seek(90));
    assert_eq!(seek_action(-5_000_000), PlaybackAction::Seek(0));
    assert_eq!(seek_action(i64::MAX), PlaybackAction::Seek(9_223_372_036_854));
}
