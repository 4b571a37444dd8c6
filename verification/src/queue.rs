//! Queue entries: where a link comes from, the audio format it is fetched
//! in, and how far it has got.

use vstd::prelude::*;

use crate::text::{has_substring, lemma_substring_in_context, str_contains};

verus! {

/// The service a link points to.
#[derive(Clone, Copy, Debug, PartialEq, Eq, Structural)]
pub enum Source {
    Spotify,
    SoundCloud,
    Unknown,
}

/// The source that a link names: Spotify when it mentions `spotify.com`
/// (checked first), else SoundCloud when it mentions `soundcloud.com`,
/// else unknown.
pub open spec fn source_of(url: Seq<char>) -> Source {
    if has_substring(url, "spotify.com"@) {
        Source::Spotify
    } else if has_substring(url, "soundcloud.com"@) {
        Source::SoundCloud
    } else {
        Source::Unknown
    }
}

/// Which service a link is for depends only on whether it mentions
/// `spotify.com` and `soundcloud.com` anywhere: a link mentioning
/// `spotify.com` is Spotify; one mentioning `soundcloud.com` but not
/// `spotify.com` is SoundCloud, whatever comes before or after it
/// (`on.`, `m.`, `www.`, a path); a link mentioning neither is unknown.
pub proof fn lemma_source_detection(a: Seq<char>, b: Seq<char>, url: Seq<char>)
    ensures
        has_substring(url, "spotify.com"@) ==> source_of(url) == Source::Spotify,
        !has_substring(url, "spotify.com"@) && has_substring(url, "soundcloud.com"@) ==> source_of(url)
            == Source::SoundCloud,
        !has_substring(url, "spotify.com"@) && !has_substring(url, "soundcloud.com"@) ==> source_of(
            url,
        ) == Source::Unknown,
        !has_substring(a + "soundcloud.com"@ + b, "spotify.com"@) ==> source_of(
            a + "soundcloud.com"@ + b,
        ) == Source::SoundCloud,
        source_of(a + "spotify.com"@ + b) == Source::Spotify,
{
    let sc = "soundcloud.com"@;
    let sp = "spotify.com"@;
    assert(sc.subrange(0, sc.len() as int) =~= sc);
    assert(crate::text::occurs_at(sc, sc, 0));
    assert(sp.subrange(0, sp.len() as int) =~= sp);
    assert(crate::text::occurs_at(sp, sp, 0));
    lemma_substring_in_context(a, sc, b, sc);
    lemma_substring_in_context(a, sp, b, sp);
}

impl Source {
    pub fn from_url(url: &str) -> (s: Source)
        ensures
            s == source_of(url@),
    {
        if str_contains(url, "spotify.com") {
            Source::Spotify
        } else if str_contains(url, "soundcloud.com") {
            Source::SoundCloud
        } else {
            Source::Unknown
        }
    }

    pub fn label(&self) -> (r: &'static str)
        ensures
            r@ == match *self {
                Source::Spotify => "Spotify"@,
                Source::SoundCloud => "SoundCloud"@,
                Source::Unknown => "Unknown"@,
            },
    {
        match self {
            Source::Spotify => "Spotify",
            Source::SoundCloud => "SoundCloud",
            Source::Unknown => "Unknown",
        }
    }

    /// Whether a link from this source lets the user pick the audio format:
    /// only Spotify downloads are converted to a chosen format.
    pub fn offers_format_choice(&self) -> (r: bool)
        ensures
            r == (*self == Source::Spotify),
    {
        match self {
            Source::Spotify => true,
            _ => false,
        }
    }
}

/// The audio formats a Spotify download can be converted to.
#[derive(Clone, Copy, Debug, PartialEq, Eq, Structural)]
pub enum AudioFormat {
    Flac,
    Mp3,
    Opus,
    M4a,
    Ogg,
    Wav,
}

impl AudioFormat {
    /// Every format, in the order the format picker lists them.
    pub const ALL: [AudioFormat; 6] = [
        AudioFormat::Flac,
        AudioFormat::Mp3,
        AudioFormat::Opus,
        AudioFormat::M4a,
        AudioFormat::Ogg,
        AudioFormat::Wav,
    ];

    pub fn label(&self) -> (r: &'static str)
        ensures
            r@ == format_label(*self),
    {
        match self {
            AudioFormat::Flac => "FLAC",
            AudioFormat::Mp3 => "MP3",
            AudioFormat::Opus => "Opus",
            AudioFormat::M4a => "M4A",
            AudioFormat::Ogg => "OGG",
            AudioFormat::Wav => "WAV",
        }
    }

    pub fn spotdl_arg(&self) -> (r: &'static str)
        ensures
            r@ == format_arg(*self),
    {
        match self {
            AudioFormat::Flac => "flac",
            AudioFormat::Mp3 => "mp3",
            AudioFormat::Opus => "opus",
            AudioFormat::M4a => "m4a",
            AudioFormat::Ogg => "ogg",
            AudioFormat::Wav => "wav",
        }
    }
}

/// The name the format picker shows for a format.
pub open spec fn format_label(f: AudioFormat) -> Seq<char> {
    match f {
        AudioFormat::Flac => "FLAC"@,
        AudioFormat::Mp3 => "MP3"@,
        AudioFormat::Opus => "Opus"@,
        AudioFormat::M4a => "M4A"@,
        AudioFormat::Ogg => "OGG"@,
        AudioFormat::Wav => "WAV"@,
    }
}

/// The value passed to `spotdl --format` for a format.
pub open spec fn format_arg(f: AudioFormat) -> Seq<char> {
    match f {
        AudioFormat::Flac => "flac"@,
        AudioFormat::Mp3 => "mp3"@,
        AudioFormat::Opus => "opus"@,
        AudioFormat::M4a => "m4a"@,
        AudioFormat::Ogg => "ogg"@,
        AudioFormat::Wav => "wav"@,
    }
}

/// The value handed to spotdl for a format is the name the picker shows,
/// in small letters, so the download comes in the format the user picked.
pub proof fn lemma_format_arg_is_lowercase_label(f: AudioFormat)
    ensures
        format_arg(f) == format_label(f).map_values(|c: char| crate::text::ascii_lower(c)),
{
    reveal_strlit("FLAC");
    reveal_strlit("MP3");
    reveal_strlit("Opus");
    reveal_strlit("M4A");
    reveal_strlit("OGG");
    reveal_strlit("WAV");
    reveal_strlit("flac");
    reveal_strlit("mp3");
    reveal_strlit("opus");
    reveal_strlit("m4a");
    reveal_strlit("ogg");
    reveal_strlit("wav");
    assert(format_arg(f) =~= format_label(f).map_values(|c: char| crate::text::ascii_lower(c)));
}

impl Default for AudioFormat {
    fn default() -> (f: AudioFormat)
        ensures
            f == AudioFormat::Flac,
    {
        AudioFormat::Flac
    }
}

/// How far a queue entry has got.
#[derive(Clone, Copy, Debug, PartialEq, Eq, Structural)]
pub enum Status {
    Pending,
    Running,
    Done,
    Failed,
}

impl Status {
    /// The word the queue list shows for a status.
    pub fn label(&self) -> (r: &'static str)
        ensures
            r@ == match *self {
                Status::Pending => "Pending"@,
                Status::Running => "Running"@,
                Status::Done => "Done"@,
                Status::Failed => "Failed"@,
            },
    {
        match self {
            Status::Pending => "Pending",
            Status::Running => "Running",
            Status::Done => "Done",
            Status::Failed => "Failed",
        }
    }

    /// Done or failed: the entry will not be worked on again.
    pub open spec fn is_finished(self) -> bool {
        self == Status::Done || self == Status::Failed
    }
}

/// One link in the download queue.
#[derive(Clone, Debug)]
pub struct QueueItem {
    pub url: String,
    pub playlist_name: String,
    pub source: Source,
    pub status: Status,
    pub format: AudioFormat,
    pub error: Option<String>,
}

} // verus!
