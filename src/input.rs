use vstd::prelude::*;

use crate::session::{App, PlaybackState};

verus! {

/// A key press, as far as the player tells keys apart.
#[derive(Debug, Clone, Copy, PartialEq, Eq, Structural)]
pub enum Key {
    Char(char),
    Left,
    Right,
    Up,
    Down,
    Other,
}

/// A session command that a key stands for.
#[derive(Debug, Clone, Copy, PartialEq, Eq, Structural)]
pub enum Command {
    Quit,
    /// Pause when playing, resume when paused, start when stopped.
    TogglePlay,
    Next,
    Previous,
    ToggleShuffle,
    /// Change the volume by this many percent.
    ChangeVolume(i64),
    /// Set the volume to this many percent.
    SetVolume(i64),
}

/// What the caller must do to its audio output after a command.
#[derive(Debug, Clone, Copy, PartialEq, Eq, Structural)]
pub enum Effect {
    Nothing,
    /// Leave the loop and release everything.
    Quit,
    PauseSink,
    ResumeSink,
    /// Apply this volume, in percent, to the output if there is one.
    SetSinkVolume(u32),
    /// Release the output, load this track and report through
    /// `App::load_finished`.
    Load(usize),
}

/// The command bound to a key, if any.
pub open spec fn key_command(key: Key) -> Option<Command> {
    match key {
        Key::Char(c) => {
            if c == 'q' || c == 'Q' {
                Some(Command::Quit)
            } else if c == ' ' {
                Some(Command::TogglePlay)
            } else if c == 'n' || c == 'N' {
                Some(Command::Next)
            } else if c == 'p' || c == 'P' {
                Some(Command::Previous)
            } else if c == 's' || c == 'S' {
                Some(Command::ToggleShuffle)
            } else if c == '+' || c == '=' {
                Some(Command::ChangeVolume(10))
            } else if c == '-' {
                Some(Command::ChangeVolume(-10i64))
            } else if '0' <= c && c <= '9' {
                Some(Command::SetVolume(((c as u32 - '0' as u32) * 10) as i64))
            } else if c == 'm' || c == 'M' {
                Some(Command::SetVolume(100))
            } else {
                None
            }
        },
        Key::Right => Some(Command::Next),
        Key::Left => Some(Command::Previous),
        Key::Up => Some(Command::ChangeVolume(5)),
        Key::Down => Some(Command::ChangeVolume(-5i64)),
        Key::Other => None,
    }
}

/// The effect that asks for a track to be loaded, if there is one.
pub open spec fn load_effect(r: Option<usize>) -> Effect {
    match r {
        Some(i) => Effect::Load(i),
        None => Effect::Nothing,
    }
}

/// What handling `key` at clock reading `now` does to session `a`, giving
/// `b`, and which effect `e` it returns.
pub open spec fn key_post(a: App, b: App, key: Key, now: u64, e: Effect) -> bool {
    match key_command(key) {
        None => b == a && e == Effect::Nothing,
        Some(Command::Quit) => b == a && e == Effect::Quit,
        Some(Command::TogglePlay) => match a.playback_state {
            PlaybackState::Playing => App::pause_post(a, b, now) && e == Effect::PauseSink,
            PlaybackState::Paused => App::resume_post(a, b, now) && e == Effect::ResumeSink,
            PlaybackState::Stopped => exists|r: Option<usize>|
                App::play_post(a, b, r) && e == load_effect(r),
        },
        Some(Command::Next) => exists|r: Option<usize>|
            App::next_post(a, b, r) && e == load_effect(r),
        Some(Command::Previous) => exists|r: Option<usize>|
            App::previous_post(a, b, r) && e == load_effect(r),
        Some(Command::ToggleShuffle) => App::shuffle_toggled(a, b) && e == Effect::Nothing,
        Some(Command::ChangeVolume(d)) => App::volume_post(a, b, a.volume + d) && e
            == Effect::SetSinkVolume(b.volume),
        Some(Command::SetVolume(v)) => App::volume_post(a, b, v as int) && e
            == Effect::SetSinkVolume(b.volume),
    }
}

/// The command bound to a key, if any.
pub fn command_for_key(key: Key) -> (r: Option<Command>)
    ensures
        r == key_command(key),
{
    match key {
        Key::Char(c) => {
            if c == 'q' || c == 'Q' {
                Some(Command::Quit)
            } else if c == ' ' {
                Some(Command::TogglePlay)
            } else if c == 'n' || c == 'N' {
                Some(Command::Next)
            } else if c == 'p' || c == 'P' {
                Some(Command::Previous)
            } else if c == 's' || c == 'S' {
                Some(Command::ToggleShuffle)
            } else if c == '+' || c == '=' {
                Some(Command::ChangeVolume(10))
            } else if c == '-' {
                Some(Command::ChangeVolume(-10))
            } else if '0' <= c && c <= '9' {
                Some(Command::SetVolume(((c as u32 - '0' as u32) * 10) as i64))
            } else if c == 'm' || c == 'M' {
                Some(Command::SetVolume(100))
            } else {
                None
            }
        },
        Key::Right => Some(Command::Next),
        Key::Left => Some(Command::Previous),
        Key::Up => Some(Command::ChangeVolume(5)),
        Key::Down => Some(Command::ChangeVolume(-5)),
        Key::Other => None,
    }
}

fn to_effect(r: Option<usize>) -> (e: Effect)
    ensures
        e == load_effect(r),
{
    match r {
        Some(i) => Effect::Load(i),
        None => Effect::Nothing,
    }
}

/// Applies the command bound to `key` to the session at clock reading `now`
/// and returns what the caller must do to its audio output.
pub fn handle_key_event(app: &mut App, key: Key, now: u64) -> (e: Effect)
    requires
        old(app).wf(),
    ensures
        final(app).wf(),
        key_post(*old(app), *final(app), key, now, e),
{
    match command_for_key(key) {
        None => Effect::Nothing,
        Some(Command::Quit) => Effect::Quit,
        Some(Command::TogglePlay) => match app.playback_state {
            PlaybackState::Playing => {
                app.pause(now);
                Effect::PauseSink
            },
            PlaybackState::Paused => {
                app.resume(now);
                Effect::ResumeSink
            },
            PlaybackState::Stopped => {
                let r = app.play();
                to_effect(r)
            },
        },
        Some(Command::Next) => {
            let r = app.next();
            to_effect(r)
        },
        Some(Command::Previous) => {
            let r = app.previous();
            to_effect(r)
        },
        Some(Command::ToggleShuffle) => {
            app.toggle_shuffle();
            Effect::Nothing
        },
        Some(Command::ChangeVolume(d)) => {
            app.set_volume(app.volume as i64 + d);
            Effect::SetSinkVolume(app.volume)
        },
        Some(Command::SetVolume(v)) => {
            app.set_volume(v);
            Effect::SetSinkVolume(app.volume)
        },
    }
}

} // verus!
