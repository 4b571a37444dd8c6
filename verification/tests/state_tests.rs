use playlist_fetcher::config::{Config, Playlist, PlaylistError};
use playlist_fetcher::deps::DepStatus;
use playlist_fetcher::queue::{AudioFormat, Source, Status};
use playlist_fetcher::state::FetcherState;

fn deps() -> DepStatus {
    DepStatus { spotdl: true, scdl: true, ffmpeg: true }
}

fn state_with_playlists(names: &[&str]) -> FetcherState {
    let config = Config {
        playlists: names
            .iter()
            .map(|n| Playlist { name: n.to_string(), path: format!("/music/{n}") })
            .collect(),
    };
    FetcherState::new(config, deps())
}

fn queue_url(s: &mut FetcherState, url: &str) -> bool {
    s.new_url = url.to_string();
    s.add_to_queue()
}

#[test]
fn fresh_state() {
    let s = state_with_playlists(&["Mix"]);
    assert!(s.queue.is_empty());
    assert!(!s.processing);
    assert_eq!(s.selected_playlist, None);
    assert_eq!(s.selected_format, AudioFormat::Flac);
    assert_eq!(s.selected_playlist_label(), "Select...");
    assert!(!s.can_process());
}

#[test]
fn add_needs_selection_and_known_source() {
    let mut s = state_with_playlists(&["Mix", "Chill"]);
    assert!(!queue_url(&mut s, "https://open.spotify.com/track/1"));
    assert_eq!(s.new_url, "https://open.spotify.com/track/1");
    s.selected_playlist = Some(1);
    assert_eq!(s.selected_playlist_label(), "Chill");
    assert!(!queue_url(&mut s, "https://example.com/x"));
    assert_eq!(s.new_url, "https://example.com/x");
    assert!(s.queue.is_empty());
    s.selected_format = AudioFormat::Mp3;
    assert!(queue_url(&mut s, "https://open.spotify.com/track/1"));
    assert_eq!(s.new_url, "");
    assert_eq!(s.queue.len(), 1);
    let it = &s.queue[0];
    assert_eq!(it.url, "https://open.spotify.com/track/1");
    assert_eq!(it.playlist_name, "Chill");
    assert_eq!(it.source, Source::Spotify);
    assert_eq!(it.status, Status::Pending);
    assert_eq!(it.format, AudioFormat::Mp3);
    assert_eq!(it.error, None);
}

#[test]
fn form_flags_follow_link() {
    let mut s = state_with_playlists(&[]);
    s.new_url = "https://soundcloud.com/a".to_string();
    assert!(!s.format_selectable());
    assert!(s.url_accepted());
    s.new_url = "https://open.spotify.com/a".to_string();
    assert!(s.format_selectable());
    assert!(s.url_accepted());
    s.new_url = "nonsense".to_string();
    assert!(!s.format_selectable());
    assert!(!s.url_accepted());
}

#[test]
fn start_runs_pending_entries() {
    let mut s = state_with_playlists(&["Mix"]);
    assert!(!s.start_processing());
    s.selected_playlist = Some(0);
    queue_url(&mut s, "https://soundcloud.com/a");
    queue_url(&mut s, "https://soundcloud.com/b");
    assert!(s.can_process());
    assert!(s.start_processing());
    assert!(s.processing);
    assert!(s.queue.iter().all(|i| i.status == Status::Running));
    assert!(!s.can_process());
    assert!(!s.start_processing());
}

#[test]
fn finish_and_settle() {
    let mut s = state_with_playlists(&["Mix"]);
    s.selected_playlist = Some(0);
    queue_url(&mut s, "https://soundcloud.com/a");
    queue_url(&mut s, "https://soundcloud.com/b");
    s.start_processing();
    assert!(s.finish_item(0, true, None));
    s.settle();
    assert!(s.processing);
    assert_eq!(s.progress(), (1, 2));
    assert!(s.finish_item(1, false, Some("ERROR: gone".to_string())));
    assert!(!s.finish_item(7, true, None));
    assert_eq!(s.queue[0].status, Status::Done);
    assert_eq!(s.queue[1].status, Status::Failed);
    assert_eq!(s.queue[1].error, Some("ERROR: gone".to_string()));
    s.settle();
    assert!(!s.processing);
    assert_eq!(s.progress(), (2, 2));
}

#[test]
fn cancel_returns_running_to_pending() {
    let mut s = state_with_playlists(&["Mix"]);
    s.selected_playlist = Some(0);
    queue_url(&mut s, "https://soundcloud.com/a");
    queue_url(&mut s, "https://soundcloud.com/b");
    s.start_processing();
    s.finish_item(0, true, None);
    s.cancel_running();
    assert!(!s.processing);
    assert_eq!(s.queue[0].status, Status::Done);
    assert_eq!(s.queue[1].status, Status::Pending);
    assert_eq!(s.last_processed, Some("Processing stopped".to_string()));
}

#[test]
fn stop_right_after_start_restores_queue() {
    let mut s = state_with_playlists(&["Mix"]);
    s.selected_playlist = Some(0);
    queue_url(&mut s, "https://soundcloud.com/a");
    queue_url(&mut s, "https://soundcloud.com/b");
    s.start_processing();
    s.finish_item(0, false, None);
    s.cancel_running();
    queue_url(&mut s, "https://soundcloud.com/c");
    let before: Vec<Status> = s.queue.iter().map(|i| i.status).collect();
    s.start_processing();
    s.cancel_running();
    let after: Vec<Status> = s.queue.iter().map(|i| i.status).collect();
    assert_eq!(before, after);
    assert_eq!(after, vec![Status::Failed, Status::Pending, Status::Pending]);
}

#[test]
fn progress_of_empty_queue() {
    let s = state_with_playlists(&[]);
    assert_eq!(s.progress(), (0, 1));
}

#[test]
fn removing_entries() {
    let mut s = state_with_playlists(&["Mix"]);
    s.selected_playlist = Some(0);
    queue_url(&mut s, "https://soundcloud.com/a");
    queue_url(&mut s, "https://soundcloud.com/b");
    assert!(s.removable(0));
    s.remove_from_queue(0);
    assert_eq!(s.queue.len(), 1);
    assert_eq!(s.queue[0].url, "https://soundcloud.com/b");
    s.start_processing();
    assert!(!s.removable(0));
}

#[test]
fn submit_refuses_with_message() {
    let mut s = state_with_playlists(&["Mix"]);
    s.new_playlist_name = "  mix ".to_string();
    s.new_playlist_path = "/x".to_string();
    assert!(s.submit_playlist().is_none());
    assert_eq!(s.new_playlist_error, Some("A playlist with that name already exists".to_string()));
    assert_eq!(s.new_playlist_name, "  mix ");
    s.new_playlist_name = "".to_string();
    assert!(s.submit_playlist().is_none());
    assert_eq!(s.new_playlist_error, Some("Name and path are required".to_string()));
}

#[test]
fn submit_then_accept_clears_form() {
    let mut s = state_with_playlists(&["Mix"]);
    s.selected_playlist = Some(0);
    s.new_playlist_name = " Chill ".to_string();
    s.new_playlist_path = " /music/chill ".to_string();
    s.new_playlist_error = Some("old".to_string());
    let p = s.submit_playlist().unwrap();
    assert_eq!(p.name, "Chill");
    assert_eq!(p.path, "/music/chill");
    assert_eq!(s.config.playlists.len(), 1);
    s.accept_playlist(p);
    assert_eq!(s.config.playlists.len(), 2);
    assert_eq!(s.config.playlists[1].name, "Chill");
    assert_eq!(s.new_playlist_name, "");
    assert_eq!(s.new_playlist_path, "");
    assert_eq!(s.new_playlist_error, None);
    assert_eq!(s.selected_playlist, Some(0));
}

#[test]
fn reject_missing_folder() {
    let mut s = state_with_playlists(&[]);
    s.reject_playlist(PlaylistError::MissingFolder);
    assert_eq!(s.new_playlist_error, Some("That folder doesn't exist".to_string()));
}

#[test]
fn removing_playlist_clears_selection() {
    let mut s = state_with_playlists(&["Mix", "Chill"]);
    s.selected_playlist = Some(1);
    s.remove_playlist(0);
    assert_eq!(s.config.playlists.len(), 1);
    assert_eq!(s.config.playlists[0].name, "Chill");
    assert_eq!(s.selected_playlist, None);
}
