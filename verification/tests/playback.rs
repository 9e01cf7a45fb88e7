use rmusic_tui::playback::playback_context::PlaybackContext;
use rmusic_tui::playback::playback_context::VOLUME_MAX;
use rmusic_tui::playback::PlaybackDaemon;
use rmusic_tui::playback::TransportState;
use rmusic_tui::playback_loop::PlaybackAction;
use rmusic_tui::playback_loop::Request;
use rmusic_tui::playback_loop::Response;
use rmusic_tui::queue::QueueItem;

fn track(name: &str) -> QueueItem {
    QueueItem::Track(name.to_string())
}

/// A daemon that plays one open track of `length` samples.
fn playing(sample_rate: u64, length: u64) -> PlaybackDaemon {
    let mut daemon = PlaybackDaemon::with_track(sample_rate, track("t"));
    let (mut callback, request) = daemon.begin(1);
    assert_eq!(request, Request::Open { track: "t".to_string() });
    let request = daemon.resume(&mut callback, Response::Opened { length });
    assert_eq!(request, Request::Decode { position: 0, offset: 0, count: 1 });
    assert!(daemon.is_loaded());
    daemon
}

#[test]
fn new_daemon_is_idle_with_full_volume() {
    let daemon = PlaybackDaemon::new(48000);
    assert_eq!(daemon.state(), TransportState::Idle);
    assert!(!daemon.is_loaded());
    let context = daemon.get_playback_context();
    assert_eq!(context.sample_rate(), 48000);
    assert_eq!(context.played(), 0);
    assert_eq!(context.length(), 0);
    assert_eq!(context.volume_level(), VOLUME_MAX);
    assert_eq!(VOLUME_MAX, 1000);
    assert!(context.queue().is_empty());
}

#[test]
fn daemon_with_an_initial_track_is_playing() {
    let daemon = PlaybackDaemon::with_track(44100, track("t"));
    assert_eq!(daemon.state(), TransportState::Playing);
    assert_eq!(
        daemon.get_playback_context().queue().current_track(),
        Some(&"t".to_string())
    );
}

#[test]
fn change_volume_stays_inside_the_range() {
    let mut daemon = PlaybackDaemon::new(48000);
    let deltas = [20, 20, -1500, -20, 300, i32::MAX, i32::MIN, 5, -3, 2000, -999];
    let expected = [1000, 1000, 0, 0, 300, 1000, 0, 5, 2, 1000, 1];
    for (delta, level) in deltas.iter().zip(expected.iter()) {
        daemon.apply(PlaybackAction::ChangeVolume(*delta));
        let now = daemon.get_playback_context().volume_level();
        assert!(now <= VOLUME_MAX);
        assert_eq!(now, *level);
    }
}

#[test]
fn set_volume_is_held_inside_the_range() {
    let mut daemon = PlaybackDaemon::new(48000);
    daemon.set_volume(200);
    assert_eq!(daemon.get_playback_context().volume_level(), 200);
    daemon.apply(PlaybackAction::ChangeVolume(20));
    assert_eq!(daemon.get_playback_context().volume_level(), 220);
    daemon.apply(PlaybackAction::ChangeVolume(-20));
    daemon.apply(PlaybackAction::ChangeVolume(-20));
    assert_eq!(daemon.get_playback_context().volume_level(), 180);
    daemon.set_volume(5000);
    assert_eq!(daemon.get_playback_context().volume_level(), 1000);
    daemon.set_volume(0);
    assert_eq!(daemon.get_playback_context().volume_level(), 0);
}

#[test]
fn play_pause_twice_restores_the_state() {
    let mut daemon = playing(10, 100);
    daemon.apply(PlaybackAction::GoTo(40));
    for start in [TransportState::Playing, TransportState::Paused] {
        daemon.set_state(start);
        daemon.apply(PlaybackAction::PlayPause);
        assert_ne!(daemon.state(), start);
        assert_eq!(daemon.get_playback_context().played(), 40);
        daemon.apply(PlaybackAction::PlayPause);
        assert_eq!(daemon.state(), start);
        assert_eq!(daemon.get_playback_context().played(), 40);
        assert_eq!(daemon.get_playback_context().length(), 100);
        assert!(daemon.is_loaded());
    }
}

#[test]
fn play_pause_leaves_an_idle_daemon_idle() {
    let mut daemon = PlaybackDaemon::new(10);
    daemon.apply(PlaybackAction::PlayPause);
    assert_eq!(daemon.state(), TransportState::Idle);
    daemon.apply(PlaybackAction::PlayPause);
    assert_eq!(daemon.state(), TransportState::Idle);
}

#[test]
fn explicit_states_are_set_and_idempotent() {
    let mut daemon = PlaybackDaemon::new(10);
    daemon.apply(PlaybackAction::Playing);
    assert_eq!(daemon.state(), TransportState::Playing);
    daemon.apply(PlaybackAction::Playing);
    assert_eq!(daemon.state(), TransportState::Playing);
    daemon.apply(PlaybackAction::Paused);
    assert_eq!(daemon.state(), TransportState::Paused);
    daemon.apply(PlaybackAction::Paused);
    assert_eq!(daemon.state(), TransportState::Paused);
}

#[test]
fn go_to_sets_the_position_and_the_next_callback_decodes_from_it() {
    let mut daemon = playing(10, 100);
    daemon.apply(PlaybackAction::GoTo(37));
    assert_eq!(daemon.get_playback_context().played(), 37);
    let (_, request) = daemon.begin(16);
    assert_eq!(request, Request::Decode { position: 37, offset: 0, count: 16 });
}

#[test]
fn go_to_is_clamped_to_the_length_of_the_track() {
    let mut daemon = playing(10, 100);
    daemon.apply(PlaybackAction::GoTo(100));
    assert_eq!(daemon.get_playback_context().played(), 100);
    daemon.apply(PlaybackAction::GoTo(101));
    assert_eq!(daemon.get_playback_context().played(), 100);
    daemon.apply(PlaybackAction::GoTo(u64::MAX));
    assert_eq!(daemon.get_playback_context().played(), 100);
    daemon.apply(PlaybackAction::GoTo(0));
    assert_eq!(daemon.get_playback_context().played(), 0);
}

#[test]
fn fast_forward_and_rewind_move_by_seconds_times_rate() {
    let mut daemon = playing(48000, 48000 * 60);
    daemon.apply(PlaybackAction::FastForward(5));
    assert_eq!(daemon.get_playback_context().played(), 240000);
    assert_eq!(daemon.get_playback_context().played_sec(), 5);
    daemon.apply(PlaybackAction::FastForward(5));
    assert_eq!(daemon.get_playback_context().played(), 480000);
    daemon.apply(PlaybackAction::Rewind(3));
    assert_eq!(daemon.get_playback_context().played(), 336000);
    assert_eq!(daemon.get_playback_context().played_sec(), 7);
    assert_eq!(daemon.get_playback_context().length_sec(), 60);
}

#[test]
fn fast_forward_and_rewind_are_clamped() {
    let mut daemon = playing(10, 100);
    daemon.apply(PlaybackAction::FastForward(9));
    assert_eq!(daemon.get_playback_context().played(), 90);
    daemon.apply(PlaybackAction::FastForward(2));
    assert_eq!(daemon.get_playback_context().played(), 100);
    daemon.apply(PlaybackAction::FastForward(u64::MAX));
    assert_eq!(daemon.get_playback_context().played(), 100);
    daemon.apply(PlaybackAction::Rewind(3));
    assert_eq!(daemon.get_playback_context().played(), 70);
    daemon.apply(PlaybackAction::Rewind(8));
    assert_eq!(daemon.get_playback_context().played(), 0);
    daemon.apply(PlaybackAction::GoTo(50));
    daemon.apply(PlaybackAction::Rewind(u64::MAX));
    assert_eq!(daemon.get_playback_context().played(), 0);
}

#[test]
fn seeking_works_while_paused_and_not_while_idle() {
    let mut daemon = playing(10, 100);
    daemon.apply(PlaybackAction::Paused);
    daemon.apply(PlaybackAction::GoTo(20));
    assert_eq!(daemon.get_playback_context().played(), 20);
    daemon.apply(PlaybackAction::FastForward(1));
    assert_eq!(daemon.get_playback_context().played(), 30);
    daemon.set_state(TransportState::Idle);
    daemon.apply(PlaybackAction::GoTo(60));
    daemon.apply(PlaybackAction::FastForward(1));
    daemon.apply(PlaybackAction::Rewind(1));
    assert_eq!(daemon.get_playback_context().played(), 30);
}

#[test]
fn play_replaces_the_queue_and_starts_playing() {
    let mut daemon = playing(10, 100);
    daemon.apply(PlaybackAction::GoTo(50));
    daemon.apply(PlaybackAction::Play(QueueItem::Album(
        vec!["a".to_string(), "b".to_string()],
        true,
    )));
    assert_eq!(daemon.state(), TransportState::Playing);
    assert!(!daemon.is_loaded());
    let context = daemon.get_playback_context();
    assert_eq!(context.played(), 0);
    assert_eq!(context.length(), 0);
    assert_eq!(context.queue().queue_items().clone(), vec![track("a"), track("b")]);
    assert_eq!(context.queue().current_track(), Some(&"a".to_string()));
}

#[test]
fn context_counts_whole_seconds() {
    let daemon = playing(48000, 48000 * 3 + 47999);
    let context = daemon.get_playback_context();
    assert_eq!(context.length(), 191999);
    assert_eq!(context.length_sec(), 3);
    assert_eq!(context.played_sec(), 0);
    let context = PlaybackContext::new(0);
    assert_eq!(context.played_sec(), 0);
    assert_eq!(context.length_sec(), 0);
}

#[test]
fn lock_queue_changes_the_queue_of_the_context() {
    let mut daemon = PlaybackDaemon::new(10);
    daemon
        .playback_context_mut()
        .lock_queue()
        .append_queue_item(track("t"), false);
    assert_eq!(daemon.get_playback_context().queue().len(), 1);
    daemon.playback_context_mut().lock_queue().cycle_shuffle();
    assert!(daemon.get_playback_context().queue().is_shuffled());
    assert_eq!(daemon.get_playback_context().volume_level(), 1000);
}
