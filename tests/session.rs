use cuper_music::{App, PlaybackState, Song, DEFAULT_DURATION_MS};

fn song(name: &str, secs: Option<u64>) -> Song {
    Song {
        path: format!("assets/{}", name),
        name: name.to_string(),
        duration: secs.map(|s| s * 1000),
    }
}

fn two_songs() -> App {
    App::new(vec![song("a.mp3", Some(180)), song("b.mp3", Some(120))])
}

fn three_songs() -> App {
    App::new(vec![
        song("a.mp3", Some(180)),
        song("b.mp3", Some(120)),
        song("c.mp3", None),
    ])
}

fn playing(app: &mut App, now: u64) {
    let i = app.play().expect("catalog is not empty");
    assert_eq!(i, app.current_index);
    assert_eq!(app.load_finished(true, now), None);
}

#[test]
fn new_session_is_stopped_at_half_volume() {
    let app = two_songs();
    assert_eq!(app.playback_state, PlaybackState::Stopped);
    assert_eq!(app.current_index, 0);
    assert_eq!(app.volume, 50);
    assert!(!app.is_shuffle);
    assert!(app.shuffle_history.is_empty());
    assert_eq!(app.get_current_time(5_000), 0);
}

#[test]
fn play_then_auto_advance_after_track_ends() {
    let mut app = two_songs();
    assert_eq!(app.play(), Some(0));
    assert_eq!(app.load_finished(true, 0), None);
    assert_eq!(app.playback_state, PlaybackState::Playing);
    assert_eq!(app.current_index, 0);
    // 200 s later the output has drained
    assert_eq!(app.check_and_auto_next(0, false), Some(1));
    assert_eq!(app.load_finished(true, 200_000), None);
    assert_eq!(app.current_index, 1);
    assert_eq!(app.playback_state, PlaybackState::Playing);
    assert_eq!(app.get_current_time(200_000), 0);
    assert_eq!(app.get_current_time(200_500), 500);
}

#[test]
fn auto_advance_waits_while_output_busy_or_paused() {
    let mut app = two_songs();
    playing(&mut app, 0);
    assert_eq!(app.check_and_auto_next(1, false), None);
    assert_eq!(app.check_and_auto_next(0, true), None);
    assert_eq!(app.current_index, 0);
    app.pause(1_000);
    assert_eq!(app.check_and_auto_next(0, false), None);
    assert_eq!(app.playback_state, PlaybackState::Paused);
}

#[test]
fn auto_advance_restarts_single_track() {
    let mut app = App::new(vec![song("a.mp3", Some(10))]);
    playing(&mut app, 0);
    assert_eq!(app.check_and_auto_next(0, false), Some(0));
    assert_eq!(app.playback_state, PlaybackState::Stopped);
    assert_eq!(app.load_finished(true, 10_000), None);
    assert_eq!(app.current_index, 0);
    assert_eq!(app.get_current_time(10_000), 0);
}

#[test]
fn next_and_previous_wrap_without_shuffle() {
    let mut app = three_songs();
    assert_eq!(app.next(), Some(1));
    assert_eq!(app.next(), Some(2));
    assert_eq!(app.next(), Some(0));
    assert_eq!(app.previous(), Some(2));
    assert_eq!(app.previous(), Some(1));
    assert_eq!(app.previous(), Some(0));
    for _ in 0..50 {
        app.next();
        assert!(app.current_index < 3);
    }
    for _ in 0..50 {
        app.previous();
        assert!(app.current_index < 3);
    }
}

#[test]
fn empty_catalog_operations_do_nothing() {
    let mut app = App::new(Vec::new());
    assert_eq!(app.play(), None);
    assert_eq!(app.next(), None);
    assert_eq!(app.previous(), None);
    app.next_without_play();
    app.pause(10);
    app.resume(20);
    assert_eq!(app.check_and_auto_next(0, false), None);
    assert_eq!(app.load_finished(true, 0), None);
    assert_eq!(app.playback_state, PlaybackState::Stopped);
    assert_eq!(app.current_index, 0);
    assert!(app.get_current_song().is_none());
    assert_eq!(app.get_total_duration(), DEFAULT_DURATION_MS);
    assert_eq!(app.get_progress(1_000), 0);
}

#[test]
fn set_volume_clamps_and_is_idempotent() {
    let mut app = two_songs();
    for x in [-50i64, -1, 0, 37, 100, 101, 1_000, i64::MIN, i64::MAX] {
        app.set_volume(x);
        let first = app.volume;
        app.set_volume(x);
        assert_eq!(app.volume, first);
        assert!(app.volume <= 100);
    }
    app.set_volume(-3);
    assert_eq!(app.volume, 0);
    app.set_volume(250);
    assert_eq!(app.volume, 100);
    app.set_volume(42);
    assert_eq!(app.volume, 42);
}

#[test]
fn pause_resume_round_trip_keeps_elapsed() {
    let mut app = two_songs();
    playing(&mut app, 1_000);
    let before = app.get_current_time(31_000);
    assert_eq!(before, 30_000);
    app.pause(31_000);
    assert_eq!(app.playback_state, PlaybackState::Paused);
    assert_eq!(app.get_current_time(90_000), 30_000);
    app.resume(31_000);
    assert_eq!(app.playback_state, PlaybackState::Playing);
    assert_eq!(app.get_current_time(31_000), before);
}

#[test]
fn elapsed_accumulates_across_pauses() {
    let mut app = two_songs();
    playing(&mut app, 0);
    app.pause(10_000);
    app.resume(50_000);
    assert_eq!(app.get_current_time(55_000), 15_000);
    app.update_play_time(56_000);
    assert_eq!(app.current_play_time, 16_000);
}

#[test]
fn elapsed_is_clamped_to_track_length() {
    let mut app = two_songs();
    playing(&mut app, 0);
    assert_eq!(app.get_current_time(500_000), 180_000);
    app.update_play_time(500_000);
    assert_eq!(app.current_play_time, 180_000);
    assert_eq!(app.get_progress(500_000), 1000);
}

#[test]
fn stop_resets_timing() {
    let mut app = two_songs();
    playing(&mut app, 0);
    app.update_play_time(4_000);
    app.stop();
    assert_eq!(app.playback_state, PlaybackState::Stopped);
    assert_eq!(app.play_start_time, None);
    assert_eq!(app.current_play_time, 0);
    assert_eq!(app.get_current_time(9_000), 0);
    app.update_play_time(9_000);
    assert_eq!(app.current_play_time, 0);
}

#[test]
fn progress_ratio_values() {
    let mut app = two_songs();
    assert_eq!(app.get_progress(0), 0);
    playing(&mut app, 0);
    assert_eq!(app.get_progress(90_000), 500);
    assert_eq!(app.get_progress(45_000), 250);
    assert_eq!(app.get_progress(1), 0);
    let mut zero = App::new(vec![song("z.wav", Some(0))]);
    playing(&mut zero, 0);
    assert_eq!(zero.get_total_duration(), 0);
    assert_eq!(zero.get_progress(5_000), 0);
    for now in [0u64, 1, 1_000, 179_999, 180_000, u64::MAX] {
        assert!(app.get_progress(now) <= 1000);
    }
}

#[test]
fn unknown_duration_falls_back_to_three_minutes() {
    let mut app = three_songs();
    app.current_index = 2;
    assert_eq!(app.get_total_duration(), 180_000);
    app.current_index = 1;
    assert_eq!(app.get_total_duration(), 120_000);
    assert_eq!(app.get_current_song().map(|s| s.name.clone()), Some("b.mp3".to_string()));
}

#[test]
fn failed_load_skips_to_next_track() {
    let mut app = three_songs();
    assert_eq!(app.play(), Some(0));
    assert_eq!(app.load_finished(false, 0), Some(1));
    assert_eq!(app.playback_state, PlaybackState::Stopped);
    assert_eq!(app.load_finished(true, 7), None);
    assert_eq!(app.current_index, 1);
    assert_eq!(app.playback_state, PlaybackState::Playing);
}

#[test]
fn failed_loads_give_up_after_whole_catalog() {
    let mut app = three_songs();
    assert_eq!(app.play(), Some(0));
    assert_eq!(app.load_finished(false, 0), Some(1));
    assert_eq!(app.load_finished(false, 0), Some(2));
    assert_eq!(app.load_finished(false, 0), None);
    assert_eq!(app.playback_state, PlaybackState::Stopped);
}

#[test]
fn failed_single_track_stays_stopped() {
    let mut app = App::new(vec![song("bad.flac", Some(10))]);
    assert_eq!(app.play(), Some(0));
    assert_eq!(app.load_finished(false, 0), None);
    assert_eq!(app.playback_state, PlaybackState::Stopped);
    assert_eq!(app.current_index, 0);
}

#[test]
fn single_track_shuffle_always_returns_index_zero() {
    let mut app = App::new(vec![song("a.mp3", Some(10))]);
    app.toggle_shuffle();
    assert!(app.is_shuffle);
    for _ in 0..20 {
        assert_eq!(app.next(), Some(0));
        assert_eq!(app.current_index, 0);
    }
}

#[test]
fn toggle_shuffle_on_clears_history() {
    let mut app = three_songs();
    app.toggle_shuffle();
    app.next();
    app.next();
    assert!(!app.shuffle_history.is_empty());
    app.toggle_shuffle();
    assert!(!app.is_shuffle);
    assert!(!app.shuffle_history.is_empty());
    app.toggle_shuffle();
    assert!(app.is_shuffle);
    assert!(app.shuffle_history.is_empty());
    let picked = app.next().unwrap();
    assert!(picked < 3);
}

#[test]
fn shuffled_next_avoids_recent_tracks() {
    let mut app = App::new((0..5).map(|i| song(&format!("{}.ogg", i), Some(60))).collect());
    app.toggle_shuffle();
    for _ in 0..200 {
        let before: Vec<usize> = app.shuffle_history.clone();
        let full = before.len() >= 5;
        let i = app.next().unwrap();
        assert!(i < 5);
        if !full {
            assert!(!before.contains(&i));
        } else {
            assert_eq!(app.shuffle_history.len(), 1);
        }
        assert!(app.shuffle_history.len() <= 5);
    }
}
