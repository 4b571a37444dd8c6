use playlist_fetcher::queue::{AudioFormat, Source, Status};

#[test]
fn spotify_link_is_spotify() {
    assert_eq!(Source::from_url("https://open.spotify.com/playlist/37i9dQZF1DX"), Source::Spotify);
}

#[test]
fn soundcloud_link_is_soundcloud() {
    assert_eq!(Source::from_url("https://soundcloud.com/artist/track"), Source::SoundCloud);
}

#[test]
fn other_link_is_unknown() {
    assert_eq!(Source::from_url("https://youtube.com/watch?v=x"), Source::Unknown);
    assert_eq!(Source::from_url(""), Source::Unknown);
    assert_eq!(Source::from_url("spotify"), Source::Unknown);
}

#[test]
fn spotify_checked_before_soundcloud() {
    assert_eq!(
        Source::from_url("https://soundcloud.com/?next=spotify.com"),
        Source::Spotify
    );
}

#[test]
fn source_match_is_case_sensitive() {
    assert_eq!(Source::from_url("https://open.SPOTIFY.com/x"), Source::Unknown);
}

#[test]
fn source_labels() {
    assert_eq!(Source::Spotify.label(), "Spotify");
    assert_eq!(Source::SoundCloud.label(), "SoundCloud");
    assert_eq!(Source::Unknown.label(), "Unknown");
}

#[test]
fn only_spotify_offers_format_choice() {
    assert!(Source::Spotify.offers_format_choice());
    assert!(!Source::SoundCloud.offers_format_choice());
    assert!(!Source::Unknown.offers_format_choice());
}

#[test]
fn format_labels_and_args() {
    let expected = [
        (AudioFormat::Flac, "FLAC", "flac"),
        (AudioFormat::Mp3, "MP3", "mp3"),
        (AudioFormat::Opus, "Opus", "opus"),
        (AudioFormat::M4a, "M4A", "m4a"),
        (AudioFormat::Ogg, "OGG", "ogg"),
        (AudioFormat::Wav, "WAV", "wav"),
    ];
    for (f, label, arg) in expected {
        assert_eq!(f.label(), label);
        assert_eq!(f.spotdl_arg(), arg);
    }
}

#[test]
fn all_formats_in_picker_order() {
    assert_eq!(
        AudioFormat::ALL,
        [
            AudioFormat::Flac,
            AudioFormat::Mp3,
            AudioFormat::Opus,
            AudioFormat::M4a,
            AudioFormat::Ogg,
            AudioFormat::Wav
        ]
    );
}

#[test]
fn default_format_is_flac() {
    assert_eq!(AudioFormat::default(), AudioFormat::Flac);
}

#[test]
fn status_labels() {
    assert_eq!(Status::Pending.label(), "Pending");
    assert_eq!(Status::Running.label(), "Running");
    assert_eq!(Status::Done.label(), "Done");
    assert_eq!(Status::Failed.label(), "Failed");
}
