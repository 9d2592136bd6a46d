use vstd::prelude::*;

use crate::catalog::{Song, DEFAULT_DURATION_MS};
use crate::shuffle::{history_after_pick, history_for_pick, random_shuffle_pick};

verus! {

/// Playback mode of a session.
#[derive(Debug, Clone, Copy, PartialEq, Eq, Structural)]
pub enum PlaybackState {
    Playing,
    Paused,
    Stopped,
}

/// The playback session: what is playing, how it is timed, the volume and the
/// shuffle mode.
///
/// Times are milliseconds on a monotonic clock that the caller reads; the
/// volume is a percentage. The audio output itself belongs to the caller,
/// which holds one exactly while the state is not `Stopped`.
pub struct App {
    /// The catalog, in a fixed order.
    pub songs: Vec<Song>,
    /// Index of the current track; valid whenever the catalog is not empty.
    pub current_index: usize,
    pub playback_state: PlaybackState,
    /// Volume in percent, from 0 to 100.
    pub volume: u32,
    pub is_shuffle: bool,
    /// Recently left indices, avoided by shuffled picks.
    pub shuffle_history: Vec<usize>,
    /// Clock reading at which the current play segment would have begun had
    /// it never been paused.
    pub play_start_time: Option<u64>,
    /// Elapsed play time frozen at the last pause or refresh.
    pub current_play_time: u64,
    /// How many more tracks a failed load may skip to before giving up.
    pub retries_left: usize,
}

/// `a - b`, or zero when `b` is larger.
pub open spec fn sat_sub(a: u64, b: u64) -> u64 {
    if a >= b {
        (a - b) as u64
    } else {
        0
    }
}

pub open spec fn min_u64(a: u64, b: u64) -> u64 {
    if a <= b {
        a
    } else {
        b
    }
}

/// A volume request clamped to the range 0 to 100.
pub open spec fn clamp_volume(v: int) -> u32 {
    if v < 0 {
        0
    } else if v > 100 {
        100
    } else {
        v as u32
    }
}

/// Progress in thousandths: elapsed over total, at most 1000, and 0 for a
/// total of zero.
pub open spec fn progress_permille(elapsed: u64, total: u64) -> u64 {
    if total == 0 {
        0
    } else if elapsed >= total {
        1000
    } else {
        (elapsed as int * 1000 / total as int) as u64
    }
}

impl App {
    /// The session's invariant.
    pub open spec fn wf(&self) -> bool {
        &&& self.songs.len() > 0 ==> self.current_index < self.songs.len()
        &&& self.songs.len() == 0 ==> self.playback_state == PlaybackState::Stopped
        &&& self.volume <= 100
        &&& self.playback_state == PlaybackState::Stopped ==> {
            &&& self.play_start_time is None
            &&& self.current_play_time == 0
        }
        &&& self.playback_state == PlaybackState::Playing ==> self.play_start_time is Some
        &&& self.shuffle_history.len() <= self.songs.len()
    }

    /// Length of the current track, or the fallback when there is none.
    pub open spec fn total_ms(&self) -> u64 {
        if self.current_index < self.songs.len() {
            self.songs[self.current_index as int].length_ms()
        } else {
            DEFAULT_DURATION_MS
        }
    }

    /// Elapsed play time of the current track at clock reading `now`.
    pub open spec fn elapsed_ms(&self, now: u64) -> u64 {
        match self.playback_state {
            PlaybackState::Playing => match self.play_start_time {
                Some(s) => min_u64(sat_sub(now, s), self.total_ms()),
                None => self.current_play_time,
            },
            PlaybackState::Paused => self.current_play_time,
            PlaybackState::Stopped => 0,
        }
    }

    /// `a` with playback stopped and its timing reset.
    pub open spec fn stopped(a: App) -> App {
        App {
            playback_state: PlaybackState::Stopped,
            play_start_time: None,
            current_play_time: 0,
            ..a
        }
    }

    /// `a` stopped and waiting for its current track to load, with one retry
    /// allowed for each other track of the catalog.
    pub open spec fn loading(a: App) -> App {
        App { retries_left: (a.songs@.len() - 1) as usize, ..Self::stopped(a) }
    }

    /// What `play` does: on an empty catalog nothing; otherwise stop and ask
    /// for the current track.
    pub open spec fn play_post(a: App, b: App, r: Option<usize>) -> bool {
        if a.songs@.len() == 0 {
            b == a && r is None
        } else {
            b == Self::loading(a) && r == Some(a.current_index)
        }
    }

    /// What `next_without_play` does: move to the following index, or to a
    /// shuffled pick, leaving everything else.
    pub open spec fn advance_post(a: App, b: App) -> bool {
        let n = a.songs@.len();
        if n == 0 {
            b == a
        } else if !a.is_shuffle {
            b == (App { current_index: ((a.current_index + 1) % (n as int)) as usize, ..a })
        } else {
            &&& b.current_index < n
            &&& !history_for_pick(a.shuffle_history@, n).contains(b.current_index)
            &&& b.shuffle_history@ == history_after_pick(
                a.shuffle_history@,
                n,
                a.current_index,
            )
            &&& b == (App {
                current_index: b.current_index,
                shuffle_history: b.shuffle_history,
                ..a
            })
        }
    }

    /// `a` with the position (index and history) of `b`.
    pub open spec fn moved_to(a: App, b: App) -> App {
        App { current_index: b.current_index, shuffle_history: b.shuffle_history, ..a }
    }

    /// What `next` does: advance, then play.
    pub open spec fn next_post(a: App, b: App, r: Option<usize>) -> bool {
        if a.songs@.len() == 0 {
            b == a && r is None
        } else {
            &&& Self::advance_post(a, Self::moved_to(a, b))
            &&& b == Self::loading(Self::moved_to(a, b))
            &&& r == Some(b.current_index)
        }
    }

    /// The index before `i` in a catalog of `n` tracks, wrapping at zero.
    pub open spec fn index_before(i: usize, n: nat) -> usize {
        if i == 0 {
            (n - 1) as usize
        } else {
            (i - 1) as usize
        }
    }

    /// What `previous` does: step back, wrapping, then play.
    pub open spec fn previous_post(a: App, b: App, r: Option<usize>) -> bool {
        if a.songs@.len() == 0 {
            b == a && r is None
        } else {
            let i = Self::index_before(a.current_index, a.songs@.len());
            b == Self::loading(App { current_index: i, ..a }) && r == Some(i)
        }
    }

    /// What `pause` does at clock reading `now`.
    pub open spec fn pause_post(a: App, b: App, now: u64) -> bool {
        if a.playback_state == PlaybackState::Playing {
            b == (App {
                playback_state: PlaybackState::Paused,
                current_play_time: a.elapsed_ms(now),
                ..a
            })
        } else {
            b == a
        }
    }

    /// What `resume` does at clock reading `now`.
    pub open spec fn resume_post(a: App, b: App, now: u64) -> bool {
        if a.playback_state == PlaybackState::Paused {
            b == (App {
                playback_state: PlaybackState::Playing,
                play_start_time: Some(sat_sub(now, a.current_play_time)),
                ..a
            })
        } else {
            b == a
        }
    }

    /// What `set_volume` does.
    pub open spec fn volume_post(a: App, b: App, v: int) -> bool {
        b == (App { volume: clamp_volume(v), ..a })
    }

    /// What `toggle_shuffle` does.
    pub open spec fn shuffle_toggled(a: App, b: App) -> bool {
        if a.is_shuffle {
            b == (App { is_shuffle: false, ..a })
        } else {
            &&& b.shuffle_history@.len() == 0
            &&& b == (App { is_shuffle: true, shuffle_history: b.shuffle_history, ..a })
        }
    }

    /// What `load_finished` does, given whether the track decoded.
    pub open spec fn load_post(a: App, b: App, decoded: bool, now: u64, r: Option<usize>) -> bool {
        if a.songs@.len() == 0 {
            b == a && r is None
        } else if decoded {
            &&& b == (App {
                playback_state: PlaybackState::Playing,
                play_start_time: Some(now),
                current_play_time: 0,
                ..a
            })
            &&& r is None
        } else if a.retries_left > 0 {
            let s = App { retries_left: (a.retries_left - 1) as usize, ..Self::stopped(a) };
            &&& Self::advance_post(s, b)
            &&& r == Some(b.current_index)
        } else {
            b == Self::stopped(a) && r is None
        }
    }

    /// Whether the output has run dry while playing, so that the session
    /// moves on by itself.
    pub open spec fn finished(a: App, queue_len: usize, output_paused: bool) -> bool {
        a.playback_state == PlaybackState::Playing && queue_len == 0 && !output_paused
    }

    /// What `check_and_auto_next` does.
    pub open spec fn auto_next_post(
        a: App,
        b: App,
        queue_len: usize,
        output_paused: bool,
        r: Option<usize>,
    ) -> bool {
        if !Self::finished(a, queue_len, output_paused) {
            b == a && r is None
        } else if a.songs@.len() > 1 {
            Self::next_post(a, b, r)
        } else {
            Self::play_post(a, b, r)
        }
    }

    /// What `update_play_time` does at clock reading `now`.
    pub open spec fn refresh_post(a: App, b: App, now: u64) -> bool {
        match a.playback_state {
            PlaybackState::Playing => b == (App { current_play_time: a.elapsed_ms(now), ..a }),
            PlaybackState::Paused => b == a,
            PlaybackState::Stopped => b == (App { current_play_time: 0, ..a }),
        }
    }

    /// A stopped session over `songs`, at the first track, half volume,
    /// shuffle off.
    pub fn new(songs: Vec<Song>) -> (r: App)
        ensures
            r.wf(),
            r.songs@ == songs@,
            r.current_index == 0,
            r.playback_state == PlaybackState::Stopped,
            r.volume == 50,
            !r.is_shuffle,
            r.shuffle_history@.len() == 0,
            r.play_start_time is None,
            r.current_play_time == 0,
    {
        App {
            songs,
            current_index: 0,
            playback_state: PlaybackState::Stopped,
            volume: 50,
            is_shuffle: false,
            shuffle_history: Vec::new(),
            play_start_time: None,
            current_play_time: 0,
            retries_left: 0,
        }
    }

    /// Stops playback and resets the timing. The caller releases its output.
    pub fn stop(&mut self)
        requires
            old(self).wf(),
        ensures
            final(self).wf(),
            *final(self) == Self::stopped(*old(self)),
    {
        self.playback_state = PlaybackState::Stopped;
        self.play_start_time = None;
        self.current_play_time = 0;
    }

    /// Starts the current track over: stops, and returns the index of the
    /// track for the caller to load and report on through `load_finished`.
    /// Does nothing on an empty catalog.
    pub fn play(&mut self) -> (r: Option<usize>)
        requires
            old(self).wf(),
        ensures
            final(self).wf(),
            Self::play_post(*old(self), *final(self), r),
    {
        if self.songs.len() == 0 {
            return None;
        }
        self.stop();
        self.retries_left = self.songs.len() - 1;
        Some(self.current_index)
    }

    /// Records how loading the current track went. A track that decoded
    /// starts playing at `now`. After a failure the session stays stopped
    /// and, while retries are left, moves on and returns the next index to
    /// load.
    pub fn load_finished(&mut self, decoded: bool, now: u64) -> (r: Option<usize>)
        requires
            old(self).wf(),
        ensures
            final(self).wf(),
            Self::load_post(*old(self), *final(self), decoded, now, r),
    {
        if self.songs.len() == 0 {
            return None;
        }
        if decoded {
            self.playback_state = PlaybackState::Playing;
            self.play_start_time = Some(now);
            self.current_play_time = 0;
            return None;
        }
        self.stop();
        if self.retries_left > 0 {
            self.retries_left = self.retries_left - 1;
            self.next_without_play();
            Some(self.current_index)
        } else {
            None
        }
    }

    /// Moves to the next index (shuffled when shuffle is on) without playing.
    pub fn next_without_play(&mut self)
        requires
            old(self).wf(),
        ensures
            final(self).wf(),
            Self::advance_post(*old(self), *final(self)),
    {
        let n = self.songs.len();
        if n == 0 {
            return;
        }
        if self.is_shuffle {
            self.next_shuffle();
        } else {
            self.current_index = (self.current_index + 1) % n;
        }
    }

    fn next_shuffle(&mut self)
        requires
            old(self).wf(),
            old(self).songs@.len() > 0,
        ensures
            final(self).current_index < old(self).songs@.len(),
            !history_for_pick(old(self).shuffle_history@, old(self).songs@.len()).contains(
                final(self).current_index,
            ),
            final(self).shuffle_history@ == history_after_pick(
                old(self).shuffle_history@,
                old(self).songs@.len(),
                old(self).current_index,
            ),
            *final(self) == Self::moved_to(*old(self), *final(self)),
    {
        let n = self.songs.len();
        let current = self.current_index;
        let picked = random_shuffle_pick(&mut self.shuffle_history, n, current);
        self.current_index = picked;
    }

    /// Moves to the next index (shuffled when shuffle is on) and plays it.
    pub fn next(&mut self) -> (r: Option<usize>)
        requires
            old(self).wf(),
        ensures
            final(self).wf(),
            Self::next_post(*old(self), *final(self), r),
    {
        if self.songs.len() == 0 {
            return None;
        }
        self.next_without_play();
        self.play()
    }

    /// Moves to the previous index, wrapping from the first to the last, and
    /// plays it.
    pub fn previous(&mut self) -> (r: Option<usize>)
        requires
            old(self).wf(),
        ensures
            final(self).wf(),
            Self::previous_post(*old(self), *final(self), r),
    {
        let n = self.songs.len();
        if n == 0 {
            return None;
        }
        if self.current_index == 0 {
            self.current_index = n - 1;
        } else {
            self.current_index = self.current_index - 1;
        }
        self.play()
    }

    /// Pauses a playing session, freezing the elapsed time read at `now`.
    pub fn pause(&mut self, now: u64)
        requires
            old(self).wf(),
        ensures
            final(self).wf(),
            Self::pause_post(*old(self), *final(self), now),
    {
        if self.playback_state == PlaybackState::Playing {
            let elapsed = self.get_current_time(now);
            self.playback_state = PlaybackState::Paused;
            self.current_play_time = elapsed;
        }
    }

    /// Resumes a paused session at `now`, so that elapsed time continues from
    /// where it was frozen.
    pub fn resume(&mut self, now: u64)
        requires
            old(self).wf(),
        ensures
            final(self).wf(),
            Self::resume_post(*old(self), *final(self), now),
    {
        if self.playback_state == PlaybackState::Paused {
            self.playback_state = PlaybackState::Playing;
            self.play_start_time = Some(now.saturating_sub(self.current_play_time));
        }
    }

    /// Flips shuffle mode; turning it on clears the history.
    pub fn toggle_shuffle(&mut self)
        requires
            old(self).wf(),
        ensures
            final(self).wf(),
            Self::shuffle_toggled(*old(self), *final(self)),
    {
        self.is_shuffle = !self.is_shuffle;
        if self.is_shuffle {
            self.shuffle_history.clear();
        }
    }

    /// Stores `volume` percent, clamped to 0..=100.
    pub fn set_volume(&mut self, volume: i64)
        requires
            old(self).wf(),
        ensures
            final(self).wf(),
            Self::volume_post(*old(self), *final(self), volume as int),
    {
        if volume < 0 {
            self.volume = 0;
        } else if volume > 100 {
            self.volume = 100;
        } else {
            self.volume = volume as u32;
        }
    }

    /// The current track, if the catalog is not empty.
    pub fn get_current_song(&self) -> (r: Option<&Song>)
        ensures
            self.current_index < self.songs.len() ==> r == Some(
                &self.songs[self.current_index as int],
            ),
            self.current_index >= self.songs.len() ==> r is None,
    {
        if self.current_index < self.songs.len() {
            Some(&self.songs[self.current_index])
        } else {
            None
        }
    }

    /// Polled each tick with what the output reports: when a playing
    /// session's output has run dry, moves to the next track (or restarts a
    /// lone track) and returns the index to load.
    pub fn check_and_auto_next(&mut self, queue_len: usize, output_paused: bool) -> (r: Option<
        usize,
    >)
        requires
            old(self).wf(),
        ensures
            final(self).wf(),
            Self::auto_next_post(*old(self), *final(self), queue_len, output_paused, r),
    {
        if self.playback_state == PlaybackState::Playing && queue_len == 0 && !output_paused {
            if self.songs.len() > 1 {
                self.next()
            } else {
                self.play()
            }
        } else {
            None
        }
    }

    /// Refreshes the frozen elapsed time from the clock reading `now`.
    pub fn update_play_time(&mut self, now: u64)
        requires
            old(self).wf(),
        ensures
            final(self).wf(),
            Self::refresh_post(*old(self), *final(self), now),
    {
        match self.playback_state {
            PlaybackState::Playing => {
                let elapsed = self.get_current_time(now);
                self.current_play_time = elapsed;
            },
            PlaybackState::Paused => {},
            PlaybackState::Stopped => {
                self.current_play_time = 0;
            },
        }
    }

    /// Elapsed play time of the current track at `now`, at most its length
    /// while playing.
    pub fn get_current_time(&self, now: u64) -> (r: u64)
        ensures
            r == self.elapsed_ms(now),
    {
        match self.playback_state {
            PlaybackState::Playing => match self.play_start_time {
                Some(start) => {
                    let elapsed = now.saturating_sub(start);
                    let total = self.get_total_duration();
                    if elapsed > total {
                        total
                    } else {
                        elapsed
                    }
                },
                None => self.current_play_time,
            },
            PlaybackState::Paused => self.current_play_time,
            PlaybackState::Stopped => 0,
        }
    }

    /// Length of the current track, or three minutes when unknown or when
    /// there is no track.
    pub fn get_total_duration(&self) -> (r: u64)
        ensures
            r == self.total_ms(),
    {
        if self.current_index < self.songs.len() {
            self.songs[self.current_index].length()
        } else {
            DEFAULT_DURATION_MS
        }
    }

    /// Progress through the current track at `now`, in thousandths.
    pub fn get_progress(&self, now: u64) -> (r: u64)
        ensures
            r == progress_permille(self.elapsed_ms(now), self.total_ms()),
            r <= 1000,
    {
        let elapsed = self.get_current_time(now);
        let total = self.get_total_duration();
        if total == 0 {
            0
        } else if elapsed >= total {
            1000
        } else {
            let p = (elapsed as u128) * 1000 / (total as u128);
            proof {
                assert(p <= 1000) by (nonlinear_arith)
                    requires
                        p == (elapsed as int) * 1000 / (total as int),
                        elapsed < total,
                        total > 0,
                ;
            }
            p as u64
        }
    }
}

/// Without shuffle, `next` stays inside a non-empty catalog and wraps from
/// the last track to the first.
pub proof fn next_wraps(a: App, b: App, r: Option<usize>)
    requires
        a.wf(),
        a.songs@.len() >= 1,
        !a.is_shuffle,
        App::next_post(a, b, r),
    ensures
        b.wf(),
        b.current_index < b.songs@.len(),
        a.current_index == a.songs@.len() - 1 ==> b.current_index == 0,
        a.current_index < a.songs@.len() - 1 ==> b.current_index == a.current_index + 1,
{
    let n = a.songs@.len() as int;
    let m = App::moved_to(a, b);
    assert(m.current_index == b.current_index);
    assert(m.current_index == ((a.current_index + 1) % n) as usize);
    if a.current_index == n - 1 {
        assert((a.current_index + 1) % n == 0) by (nonlinear_arith)
            requires
                a.current_index + 1 == n,
                n >= 1,
        ;
    } else {
        assert((a.current_index + 1) % n == a.current_index + 1) by (nonlinear_arith)
            requires
                0 <= a.current_index + 1 < n,
        ;
    }
}

/// `previous` stays inside a non-empty catalog and wraps from the first
/// track to the last.
pub proof fn previous_wraps(a: App, b: App, r: Option<usize>)
    requires
        a.wf(),
        a.songs@.len() >= 1,
        App::previous_post(a, b, r),
    ensures
        b.wf(),
        b.current_index < b.songs@.len(),
        a.current_index == 0 ==> b.current_index == a.songs@.len() - 1,
        a.current_index > 0 ==> b.current_index == a.current_index - 1,
{
}

/// Setting the same volume twice stores what the first call stored, and the
/// stored volume is always within 0 to 100 percent.
pub proof fn set_volume_idempotent(a: App, b: App, c: App, v: int)
    requires
        App::volume_post(a, b, v),
        App::volume_post(b, c, v),
    ensures
        c.volume == b.volume,
        c == b,
        b.volume <= 100,
{
}

/// Pausing a playing session and resuming it at the same clock reading
/// leaves the elapsed time as it was just before the pause.
pub proof fn pause_resume_keeps_elapsed(a: App, b: App, c: App, now: u64)
    requires
        a.wf(),
        a.playback_state == PlaybackState::Playing,
        App::pause_post(a, b, now),
        App::resume_post(b, c, now),
    ensures
        c.playback_state == PlaybackState::Playing,
        c.elapsed_ms(now) == a.elapsed_ms(now),
{
}

/// Progress is always between none and all of the track.
pub proof fn progress_bounded(elapsed: u64, total: u64)
    ensures
        progress_permille(elapsed, total) <= 1000,
{
    if total > 0 && elapsed < total {
        assert((elapsed as int) * 1000 / (total as int) <= 1000) by (nonlinear_arith)
            requires
                elapsed < total,
                total > 0,
        ;
    }
}

} // verus!
