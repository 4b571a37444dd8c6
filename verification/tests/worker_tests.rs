use playlist_fetcher::config::{Config, Playlist};
use playlist_fetcher::queue::{AudioFormat, QueueItem, Source, Status};
use playlist_fetcher::worker::{
    find_error_line, job_for, judge_run, next_action, outcome_verb, plan_command, WorkerAction,
};

fn item(url: &str, source: Source, status: Status, format: AudioFormat, playlist: &str) -> QueueItem {
    QueueItem {
        url: url.to_string(),
        playlist_name: playlist.to_string(),
        source,
        status,
        format,
        error: None,
    }
}

fn strings(v: &[&str]) -> Vec<String> {
    v.iter().map(|s| s.to_string()).collect()
}

#[test]
fn spotify_plan() {
    let it = item("https://open.spotify.com/track/1", Source::Spotify, Status::Running, AudioFormat::Opus, "p");
    let plan = plan_command(&it, "/music/mix").unwrap();
    assert_eq!(plan.program, "spotdl");
    assert_eq!(
        plan.args,
        strings(&[
            "download",
            "https://open.spotify.com/track/1",
            "--format",
            "opus",
            "--output",
            "/music/mix/{artist} - {title}.{output-ext}"
        ])
    );
}

#[test]
fn soundcloud_plan() {
    let it = item("https://soundcloud.com/a/b", Source::SoundCloud, Status::Running, AudioFormat::Mp3, "p");
    let plan = plan_command(&it, "/music/sc").unwrap();
    assert_eq!(plan.program, "scdl");
    assert_eq!(
        plan.args,
        strings(&["-l", "https://soundcloud.com/a/b", "--path", "/music/sc", "--name-format", "%(title)s"])
    );
}

#[test]
fn unknown_source_has_no_plan() {
    let it = item("https://example.com", Source::Unknown, Status::Running, AudioFormat::Flac, "p");
    assert!(plan_command(&it, "/x").is_none());
}

#[test]
fn job_only_for_running_entries() {
    let config = Config {
        playlists: vec![Playlist { name: "Mix".to_string(), path: "/m".to_string() }],
    };
    let items = vec![
        item("https://soundcloud.com/a", Source::SoundCloud, Status::Done, AudioFormat::Flac, "Mix"),
        item("https://soundcloud.com/b", Source::SoundCloud, Status::Running, AudioFormat::Flac, "Mix"),
        item("https://soundcloud.com/c", Source::SoundCloud, Status::Running, AudioFormat::Flac, "Gone"),
        item("https://soundcloud.com/d", Source::SoundCloud, Status::Pending, AudioFormat::Flac, "Mix"),
    ];
    assert!(job_for(&items, &config, 0).is_none());
    assert_eq!(job_for(&items, &config, 1).unwrap().args[3], "/m");
    assert_eq!(job_for(&items, &config, 2).unwrap().args[3], "");
    assert!(job_for(&items, &config, 3).is_none());
}

#[test]
fn first_error_line_is_trimmed() {
    let lines = strings(&["ok", "  ERROR: no such track \r", "ERROR: second"]);
    assert_eq!(find_error_line(&lines), Some("ERROR: no such track".to_string()));
    assert_eq!(find_error_line(&strings(&["fine", "error: lower"])), None);
    assert_eq!(find_error_line(&Vec::new()), None);
}

#[test]
fn clean_run_succeeds() {
    let r = judge_run("Downloaded 3 songs\n", "", true, false);
    assert_eq!(r.log, "Downloaded 3 songs\n");
    assert_eq!(r.error_line, None);
    assert!(r.success);
}

#[test]
fn stderr_is_appended_under_separator() {
    let r = judge_run("out", "warn", true, false);
    assert_eq!(r.log, "out\n--- stderr ---\nwarn");
    assert!(r.success);
}

#[test]
fn error_line_fails_even_with_zero_exit() {
    let r = judge_run("line one\r\n  ERROR: track unavailable  \r\nmore", "", true, false);
    assert_eq!(r.error_line, Some("ERROR: track unavailable".to_string()));
    assert!(!r.success);
}

#[test]
fn error_line_in_stderr_counts() {
    let r = judge_run("", "ERROR: boom", true, false);
    assert_eq!(r.error_line, Some("ERROR: boom".to_string()));
    assert!(!r.success);
}

#[test]
fn failed_exit_or_cancel_fails() {
    assert!(!judge_run("", "", false, false).success);
    assert!(!judge_run("", "", true, true).success);
}

#[test]
fn verbs() {
    assert_eq!(outcome_verb(true), "Processed");
    assert_eq!(outcome_verb(false), "Failed");
}

fn worker_items() -> (Vec<QueueItem>, Config) {
    let config = Config {
        playlists: vec![Playlist { name: "Mix".to_string(), path: "/m".to_string() }],
    };
    let items = vec![
        item("https://soundcloud.com/a", Source::SoundCloud, Status::Done, AudioFormat::Flac, "Mix"),
        item("https://example.com/u", Source::Unknown, Status::Running, AudioFormat::Flac, "Mix"),
        item("https://open.spotify.com/t", Source::Spotify, Status::Running, AudioFormat::Wav, "Mix"),
        item("https://soundcloud.com/p", Source::SoundCloud, Status::Pending, AudioFormat::Flac, "Mix"),
    ];
    (items, config)
}

#[test]
fn next_action_skips_to_first_runnable() {
    let (items, config) = worker_items();
    match next_action(&items, &config, 0, false) {
        WorkerAction::Run { index, plan } => {
            assert_eq!(index, 2);
            assert_eq!(plan.program, "spotdl");
            assert_eq!(plan.args[3], "wav");
        }
        WorkerAction::Stop { .. } => panic!("expected a run"),
    }
}

#[test]
fn next_action_stops_when_nothing_runs() {
    let (items, config) = worker_items();
    assert!(matches!(next_action(&items, &config, 3, false), WorkerAction::Stop { cancelled: false }));
    assert!(matches!(next_action(&items, &config, 3, true), WorkerAction::Stop { cancelled: false }));
    assert!(matches!(next_action(&items, &config, 9, true), WorkerAction::Stop { cancelled: false }));
}

#[test]
fn next_action_reports_stop_request() {
    let (items, config) = worker_items();
    assert!(matches!(next_action(&items, &config, 0, true), WorkerAction::Stop { cancelled: true }));
    assert!(matches!(next_action(&items, &config, 1, true), WorkerAction::Stop { cancelled: true }));
}

#[test]
fn running_unknown_entry_alone_stops_quietly() {
    let (items, config) = worker_items();
    let only_unknown = vec![items[1].clone()];
    assert!(matches!(next_action(&only_unknown, &config, 0, false), WorkerAction::Stop { cancelled: false }));
}
