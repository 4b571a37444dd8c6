use playlist_fetcher::deps::{presence_label, DepStatus, Tool};
use std::cell::RefCell;

#[test]
fn tool_commands() {
    assert_eq!(Tool::Spotdl.command(), "spotdl");
    assert_eq!(Tool::Scdl.command(), "scdl");
    assert_eq!(Tool::Ffmpeg.command(), "ffmpeg");
}

#[test]
fn check_records_each_answer() {
    let s = DepStatus::check(|t| t.command() != "scdl");
    assert_eq!(s, DepStatus { spotdl: true, scdl: false, ffmpeg: true });
    let none = DepStatus::check(|_| false);
    assert_eq!(none, DepStatus { spotdl: false, scdl: false, ffmpeg: false });
}

#[test]
fn check_asks_in_order() {
    let asked = RefCell::new(Vec::new());
    DepStatus::check(|t| {
        asked.borrow_mut().push(t);
        true
    });
    assert_eq!(asked.into_inner(), vec![Tool::Spotdl, Tool::Scdl, Tool::Ffmpeg]);
}

#[test]
fn presence_labels() {
    assert_eq!(presence_label(true), "Installed");
    assert_eq!(presence_label(false), "Missing");
}
