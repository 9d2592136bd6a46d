use vstd::prelude::*;

verus! {

/// Length assumed for a track whose duration could not be read: three
/// minutes, in milliseconds.
pub const DEFAULT_DURATION_MS: u64 = 180_000;

/// One playable track of the catalog.
#[derive(Debug, Clone)]
pub struct Song {
    /// Where the track's file is.
    pub path: String,
    /// Name shown in the playlist.
    pub name: String,
    /// Length in milliseconds, when the container told it.
    pub duration: Option<u64>,
}

impl Song {
    /// The length used for timing: the known duration, or the fallback.
    pub open spec fn length_ms(self) -> u64 {
        match self.duration {
            Some(d) => d,
            None => DEFAULT_DURATION_MS,
        }
    }

    /// The length used for timing: the known duration, or the fallback.
    pub fn length(&self) -> (r: u64)
        ensures
            r == self.length_ms(),
    {
        match self.duration {
            Some(d) => d,
            None => DEFAULT_DURATION_MS,
        }
    }
}

/// What `str::to_lowercase` makes of a string.
pub uninterp spec fn lower_of(s: Seq<char>) -> Seq<char>;

/// Relies on str::to_lowercase: the result depends on the characters alone.
#[verifier::external_body]
fn lowercase(s: &str) -> (r: String)
    ensures
        r@ == lower_of(s@),
{
    s.to_lowercase()
}

/// File extensions, in lower case, of the audio formats the player loads.
pub open spec fn supported_extension(ext: Seq<char>) -> bool {
    ||| ext == seq!['m', 'p', '3']
    ||| ext == seq!['w', 'a', 'v']
    ||| ext == seq!['f', 'l', 'a', 'c']
    ||| ext == seq!['o', 'g', 'g']
    ||| ext == seq!['m', '4', 'a']
    ||| ext == seq!['m', 'p', '4', 'a']
}

/// Whether two strings hold the same characters.
pub fn same_text(a: &str, b: &str) -> (r: bool)
    ensures
        r == (a@ == b@),
{
    let n = a.unicode_len();
    if n != b.unicode_len() {
        return false;
    }
    let mut i: usize = 0;
    while i < n
        invariant
            n == a@.len(),
            n == b@.len(),
            i <= n,
            forall|j: int| 0 <= j < i ==> a@[j] == b@[j],
        decreases n - i,
    {
        if a.get_char(i) != b.get_char(i) {
            return false;
        }
        i = i + 1;
    }
    assert(a@ =~= b@);
    true
}

/// Whether an extension already in lower case names a supported format.
pub fn is_supported_lowercase(ext: &str) -> (r: bool)
    ensures
        r == supported_extension(ext@),
{
    proof {
        reveal_strlit("mp3");
        reveal_strlit("wav");
        reveal_strlit("flac");
        reveal_strlit("ogg");
        reveal_strlit("m4a");
        reveal_strlit("mp4a");
        assert("mp3"@ =~= seq!['m', 'p', '3']);
        assert("wav"@ =~= seq!['w', 'a', 'v']);
        assert("flac"@ =~= seq!['f', 'l', 'a', 'c']);
        assert("ogg"@ =~= seq!['o', 'g', 'g']);
        assert("m4a"@ =~= seq!['m', '4', 'a']);
        assert("mp4a"@ =~= seq!['m', 'p', '4', 'a']);
    }
    same_text(ext, "mp3") || same_text(ext, "wav") || same_text(ext, "flac") || same_text(ext, "ogg")
        || same_text(ext, "m4a") || same_text(ext, "mp4a")
}

/// Whether a file extension, in any case, names a supported format.
pub fn is_supported_extension(ext: &str) -> (r: bool)
    ensures
        r == supported_extension(lower_of(ext@)),
{
    let lower = lowercase(ext);
    is_supported_lowercase(lower.as_str())
}

} // verus!
