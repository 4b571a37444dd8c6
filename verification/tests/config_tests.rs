use playlist_fetcher::config::{Config, Playlist, PlaylistError};

fn config_with(names: &[(&str, &str)]) -> Config {
    Config {
        playlists: names
            .iter()
            .map(|(n, p)| Playlist { name: n.to_string(), path: p.to_string() })
            .collect(),
    }
}

#[test]
fn default_config_is_empty() {
    assert!(Config::default().playlists.is_empty());
    let p = Playlist::default();
    assert_eq!(p.name, "");
    assert_eq!(p.path, "");
}

#[test]
fn new_playlist_is_trimmed() {
    let c = config_with(&[]);
    let p = c.check_new_playlist("  Road Trip \t", " /music/road \n").unwrap();
    assert_eq!(p.name, "Road Trip");
    assert_eq!(p.path, "/music/road");
}

#[test]
fn unicode_whitespace_is_trimmed() {
    let c = config_with(&[]);
    let p = c.check_new_playlist("\u{3000}Chill\u{a0}", "/m").unwrap();
    assert_eq!(p.name, "Chill");
}

#[test]
fn blank_name_or_path_is_refused() {
    let c = config_with(&[]);
    assert_eq!(c.check_new_playlist("   ", "/music").unwrap_err(), PlaylistError::MissingField);
    assert_eq!(c.check_new_playlist("Mix", "").unwrap_err(), PlaylistError::MissingField);
}

#[test]
fn blank_fields_reported_before_taken_name() {
    let c = config_with(&[("Mix", "/a")]);
    assert_eq!(c.check_new_playlist("Mix", " ").unwrap_err(), PlaylistError::MissingField);
}

#[test]
fn taken_name_ignoring_ascii_case_is_refused() {
    let c = config_with(&[("Workout", "/w"), ("Chill", "/c")]);
    assert_eq!(c.check_new_playlist(" chILL ", "/x").unwrap_err(), PlaylistError::NameTaken);
    assert!(c.check_new_playlist("Chilled", "/x").is_ok());
}

#[test]
fn non_ascii_case_is_not_folded() {
    let c = config_with(&[("Ärger", "/a")]);
    assert!(c.check_new_playlist("ärger", "/x").is_ok());
    assert!(c.check_new_playlist("äRGER", "/x").is_ok());
    assert_eq!(c.check_new_playlist("ÄRGER", "/x").unwrap_err(), PlaylistError::NameTaken);
    assert_eq!(c.check_new_playlist("Ärger", "/x").unwrap_err(), PlaylistError::NameTaken);
    assert_eq!(c.check_new_playlist("ÄrGeR", "/x").unwrap_err(), PlaylistError::NameTaken);
}

#[test]
fn has_name_ignores_ascii_case() {
    let c = config_with(&[("Road Trip", "/r")]);
    assert!(c.has_name("ROAD TRIP"));
    assert!(!c.has_name("Road  Trip"));
}

#[test]
fn error_messages() {
    assert_eq!(PlaylistError::MissingField.message(), "Name and path are required");
    assert_eq!(PlaylistError::NameTaken.message(), "A playlist with that name already exists");
    assert_eq!(PlaylistError::MissingFolder.message(), "That folder doesn't exist");
}

#[test]
fn target_dir_uses_first_exact_match() {
    let c = config_with(&[("a", "/one"), ("Mix", "/two"), ("Mix", "/three")]);
    assert_eq!(c.target_dir(&"Mix".to_string()), "/two");
    assert_eq!(c.target_dir(&"mix".to_string()), "");
    assert_eq!(c.target_dir(&"gone".to_string()), "");
}
