use cuper_music::shuffle::{count_unplayed, in_history, pick_unplayed, random_shuffle_pick, shuffle_pick};
use cuper_music::{
    command_for_key, format_duration, handle_key_event, is_supported_extension, time_label,
    App, Command, Effect, EventHandler, Key, PlaybackState, Song,
};

fn app_with(n: usize) -> App {
    App::new(
        (0..n)
            .map(|i| Song { path: format!("{}.mp3", i), name: format!("{}.mp3", i), duration: Some(100_000) })
            .collect(),
    )
}

#[test]
fn pick_counts_free_indices_in_order() {
    let history = vec![1usize, 3];
    assert!(in_history(&history, 3));
    assert!(!in_history(&history, 2));
    assert_eq!(count_unplayed(&history, 5), 3);
    assert_eq!(pick_unplayed(&history, 5, 0), 0);
    assert_eq!(pick_unplayed(&history, 5, 1), 2);
    assert_eq!(pick_unplayed(&history, 5, 2), 4);
}

#[test]
fn shuffle_pick_records_previous_index() {
    let mut history = vec![0usize, 2];
    let r = shuffle_pick(&mut history, 4, 2, 1);
    assert_eq!(r, 3);
    assert_eq!(history, vec![0, 2, 2]);
}

#[test]
fn shuffle_pick_clears_full_history() {
    let mut history = vec![0usize, 1, 2];
    let r = shuffle_pick(&mut history, 3, 1, 0);
    assert_eq!(r, 0);
    assert_eq!(history, vec![1]);
}

#[test]
fn random_pick_avoids_history() {
    for _ in 0..100 {
        let mut history = vec![0usize, 1, 3];
        let r = random_shuffle_pick(&mut history, 5, 3);
        assert!(r == 2 || r == 4);
        assert_eq!(history, vec![0, 1, 3, 3]);
    }
}

#[test]
fn extension_filter_ignores_case() {
    assert!(is_supported_extension("MP3"));
    assert!(is_supported_extension("Flac"));
    assert!(is_supported_extension("m4a"));
    assert!(is_supported_extension("mp4a"));
    assert!(is_supported_extension("OGG"));
    assert!(is_supported_extension("wav"));
    assert!(!is_supported_extension("txt"));
    assert!(!is_supported_extension("mp"));
    assert!(!is_supported_extension(""));
}

#[test]
fn durations_format_as_minutes_and_seconds() {
    assert_eq!(format_duration(0), "00:00");
    assert_eq!(format_duration(999), "00:00");
    assert_eq!(format_duration(65_000), "01:05");
    assert_eq!(format_duration(180_000), "03:00");
    assert_eq!(format_duration(6_000_000), "100:00");
    assert_eq!(time_label(75_500, 180_000), "01:15 / 03:00");
}

#[test]
fn keys_map_to_commands() {
    assert_eq!(command_for_key(Key::Char('q')), Some(Command::Quit));
    assert_eq!(command_for_key(Key::Char('Q')), Some(Command::Quit));
    assert_eq!(command_for_key(Key::Char(' ')), Some(Command::TogglePlay));
    assert_eq!(command_for_key(Key::Right), Some(Command::Next));
    assert_eq!(command_for_key(Key::Char('p')), Some(Command::Previous));
    assert_eq!(command_for_key(Key::Char('s')), Some(Command::ToggleShuffle));
    assert_eq!(command_for_key(Key::Char('=')), Some(Command::ChangeVolume(10)));
    assert_eq!(command_for_key(Key::Down), Some(Command::ChangeVolume(-5)));
    assert_eq!(command_for_key(Key::Char('0')), Some(Command::SetVolume(0)));
    assert_eq!(command_for_key(Key::Char('7')), Some(Command::SetVolume(70)));
    assert_eq!(command_for_key(Key::Char('M')), Some(Command::SetVolume(100)));
    assert_eq!(command_for_key(Key::Char('x')), None);
    assert_eq!(command_for_key(Key::Other), None);
}

#[test]
fn key_handling_drives_session() {
    let mut app = app_with(3);
    assert_eq!(handle_key_event(&mut app, Key::Char(' '), 0), Effect::Load(0));
    assert_eq!(app.load_finished(true, 0), None);
    assert_eq!(handle_key_event(&mut app, Key::Char(' '), 5_000), Effect::PauseSink);
    assert_eq!(app.playback_state, PlaybackState::Paused);
    assert_eq!(handle_key_event(&mut app, Key::Char(' '), 9_000), Effect::ResumeSink);
    assert_eq!(app.get_current_time(9_000), 5_000);
    assert_eq!(handle_key_event(&mut app, Key::Char('n'), 9_000), Effect::Load(1));
    assert_eq!(handle_key_event(&mut app, Key::Left, 9_000), Effect::Load(0));
    assert_eq!(handle_key_event(&mut app, Key::Left, 9_000), Effect::Load(2));
    assert_eq!(handle_key_event(&mut app, Key::Char('+'), 0), Effect::SetSinkVolume(60));
    assert_eq!(handle_key_event(&mut app, Key::Up, 0), Effect::SetSinkVolume(65));
    assert_eq!(handle_key_event(&mut app, Key::Char('m'), 0), Effect::SetSinkVolume(100));
    assert_eq!(handle_key_event(&mut app, Key::Char('+'), 0), Effect::SetSinkVolume(100));
    assert_eq!(handle_key_event(&mut app, Key::Char('3'), 0), Effect::SetSinkVolume(30));
    assert_eq!(handle_key_event(&mut app, Key::Char('-'), 0), Effect::SetSinkVolume(20));
    assert_eq!(handle_key_event(&mut app, Key::Char('0'), 0), Effect::SetSinkVolume(0));
    assert_eq!(handle_key_event(&mut app, Key::Down, 0), Effect::SetSinkVolume(0));
    assert_eq!(handle_key_event(&mut app, Key::Char('s'), 0), Effect::Nothing);
    assert!(app.is_shuffle);
    assert_eq!(handle_key_event(&mut app, Key::Other, 0), Effect::Nothing);
    assert_eq!(handle_key_event(&mut app, Key::Char('q'), 0), Effect::Quit);
}

#[test]
fn tick_budget_shrinks_and_floors_at_zero() {
    let mut ticker = EventHandler::new(100, 1_000);
    assert_eq!(ticker.poll_timeout(1_000), 100);
    assert_eq!(ticker.poll_timeout(1_030), 70);
    assert_eq!(ticker.poll_timeout(1_250), 0);
    ticker.begin_tick(2_000);
    assert_eq!(ticker.last_tick, 2_000);
    assert_eq!(ticker.poll_timeout(2_010), 90);
}
