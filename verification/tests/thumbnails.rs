use streamq_native::models::media::AppMediaSession;
use streamq_native::thumbnails::{is_managed, path_from_url, Thumbnails};

fn expected_id(app: &str, title: &str, artist: &str) -> String {
    let mut bytes = Vec::new();
    bytes.extend_from_slice(app.to_lowercase().as_bytes());
    bytes.push(0);
    bytes.extend_from_slice(title.as_bytes());
    bytes.push(0);
    bytes.extend_from_slice(artist.as_bytes());
    blake3::hash(&bytes).to_hex()[..16].to_string()
}

fn with_art(app: &str, art: Option<&str>) -> AppMediaSession {
    AppMediaSession {
        app: app.to_string(),
        title: None,
        artist: None,
        is_resumed: false,
        is_suppressed: false,
        volume: None,
        device: None,
        device_volume: None,
        can_control: None,
        updated_at: 0,
        activated_at: 0,
        url: None,
        art: art.map(|a| a.to_string()),
        position: None,
        duration: None,
    }
}

#[test]
fn path_for_hashes_the_track() {
    let id = expected_id("Spotify", "Song", "Artist");
    let (url, file) = Thumbnails::path_for("Spotify", Some("Song"), Some("Artist"), ".jpg");
    assert_eq!(url, format!("streamq-local://thumbs/{id}.jpg"));
    assert_eq!(file, format!("thumb_{id}.jpg"));
    assert_eq!(id.len(), 16);
    assert!(id.chars().all(|c| c.is_ascii_hexdigit() && !c.is_ascii_uppercase()));
}

#[test]
fn path_for_ignores_the_case_of_the_app() {
    let a = Thumbnails::path_for("SPOTIFY", Some("Song"), None, "");
    let b = Thumbnails::path_for("spotify", Some("Song"), None, "");
    assert_eq!(a, b);
}

#[test]
fn path_for_tells_tracks_apart() {
    let a = Thumbnails::path_for("vlc", Some("One"), None, ".png");
    let b = Thumbnails::path_for("vlc", Some("Two"), None, ".png");
    assert_ne!(a.0, b.0);
    let missing = Thumbnails::path_for("vlc", None, None, ".png");
    let empty = Thumbnails::path_for("vlc", Some(""), Some(""), ".png");
    assert_eq!(missing, empty);
}

#[test]
fn managed_urls_are_recognised() {
    assert!(is_managed("streamq-local://thumbs/abc.jpg"));
    assert!(!is_managed("https://example.com/abc.jpg"));
    assert!(!is_managed("streamq-local://other/abc.jpg"));
}

#[test]
fn url_maps_back_to_its_file() {
    let (url, file) = Thumbnails::path_for("mpv", Some("T"), Some("A"), ".png");
    assert_eq!(path_from_url(&url), Some(file));
    assert_eq!(path_from_url("streamq-local://thumbs/abc.jpg//"), Some("thumb_abc.jpg".to_string()));
}

#[test]
fn unsafe_urls_map_to_no_file() {
    assert_eq!(path_from_url("streamq-local://thumbs/"), None);
    assert_eq!(path_from_url("streamq-local://thumbs/../x"), None);
    assert_eq!(path_from_url("streamq-local://thumbs/a/b"), None);
    assert_eq!(path_from_url("streamq-local://thumbs/a\\b"), None);
    assert_eq!(path_from_url("file:///tmp/x.jpg"), None);
}

#[test]
fn release_keeps_art_still_shown() {
    let previous = vec![
        with_art("a", Some("streamq-local://thumbs/one.jpg")),
        with_art("b", Some("streamq-local://thumbs/two.jpg")),
        with_art("c", Some("https://example.com/three.jpg")),
        with_art("d", None),
    ];
    let live = vec![with_art("b", Some("streamq-local://thumbs/two.jpg"))];
    let released = Thumbnails::release_unreferenced(&previous, &live);
    assert_eq!(released, vec!["streamq-local://thumbs/one.jpg".to_string()]);
}
