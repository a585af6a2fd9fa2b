use streamq_native::error::NativeError;
use streamq_native::models::media::{AppMediaSession, MediaSessionState};
use streamq_native::platforms::linux::media_session_events::{needs_refresh, owner_change, OwnerChange, PlayerWatchers};
use streamq_native::platforms::linux::media_session_mpris::{
    art_source, art_source_from, check_volume_control, collect_media_sessions, extract_i64, extract_str,
    file_extension, finish_pause, is_streamq, list_mpris_players, metadata_strings, pause_targets, player_app,
    player_bus_name, resume_targets, ArtSource, MetaItem, MetaValue, PlayerReport,
};

fn names(v: &[&str]) -> Vec<String> {
    v.iter().map(|s| s.to_string()).collect()
}

fn report(app: &str, playing: bool, art: Option<&str>) -> PlayerReport {
    PlayerReport {
        app: app.to_string(),
        is_playing: playing,
        title: Some("T".to_string()),
        artist: None,
        url: None,
        art: art.map(|a| a.to_string()),
        volume: Some(1.0f64.to_bits()),
        can_control: true,
        position: None,
        duration: None,
        device: Some("speakers".to_string()),
        device_volume: None,
    }
}

#[test]
fn players_are_the_foreign_mpris_names() {
    let all = names(&[
        "org.freedesktop.DBus",
        "org.mpris.MediaPlayer2.spotify",
        "org.mpris.MediaPlayer2.playerctld",
        "org.mpris.MediaPlayer2.streamq",
        "org.mpris.MediaPlayer2.firefox.instance_1_2",
    ]);
    assert_eq!(
        list_mpris_players(&all),
        names(&["org.mpris.MediaPlayer2.spotify", "org.mpris.MediaPlayer2.firefox.instance_1_2"])
    );
}

#[test]
fn player_app_and_bus_name() {
    assert_eq!(player_app("org.mpris.MediaPlayer2.vlc"), "vlc");
    assert_eq!(player_app("vlc"), "vlc");
    assert_eq!(player_bus_name("vlc"), "org.mpris.MediaPlayer2.vlc");
    assert_eq!(player_app(&player_bus_name("spotify")), "spotify");
}

#[test]
fn host_player_is_recognised() {
    assert!(is_streamq("streamq-desktop".to_string(), false));
    assert!(!is_streamq("electron".to_string(), false));
    assert!(is_streamq("electron".to_string(), true));
    assert!(!is_streamq("streamq".to_string(), true));
}

#[test]
fn metadata_values_are_read() {
    let meta = vec![
        ("xesam:title".to_string(), MetaValue::Str("Song".to_string())),
        ("xesam:artist".to_string(), MetaValue::Array(vec![MetaItem::Str("Band".to_string()), MetaItem::Str("Other".to_string())])),
        ("xesam:url".to_string(), MetaValue::Array(vec![MetaItem::Other])),
        ("mpris:artUrl".to_string(), MetaValue::I64(3)),
        ("mpris:length".to_string(), MetaValue::U64(u64::MAX)),
    ];
    let m = metadata_strings(&meta);
    assert_eq!(m.title, Some("Song".to_string()));
    assert_eq!(m.artist, Some("Band".to_string()));
    assert_eq!(m.url, None);
    assert_eq!(m.art, None);
    assert_eq!(m.length, Some(-1));
    assert_eq!(extract_i64(&vec![("k".to_string(), MetaValue::U32(7))], "k"), Some(7));
    assert_eq!(extract_i64(&vec![("k".to_string(), MetaValue::I32(-7))], "k"), Some(-7));
    assert_eq!(extract_str(&vec![], "k"), None);
    assert_eq!(extract_str(&vec![("k".to_string(), MetaValue::Array(vec![]))], "k"), None);
}

#[test]
fn pause_and_resume_address_matching_players() {
    let players = names(&["org.mpris.MediaPlayer2.Spotify", "org.mpris.MediaPlayer2.vlc", "org.mpris.MediaPlayer2.electron"]);
    assert_eq!(pause_targets(&players, &names(&["spotify", "electron"]), true), names(&["org.mpris.MediaPlayer2.Spotify"]));
    assert_eq!(pause_targets(&players, &names(&["electron"]), false), names(&["org.mpris.MediaPlayer2.electron"]));
    assert_eq!(resume_targets(&players, &names(&["VLC", "electron"])), names(&["org.mpris.MediaPlayer2.vlc", "org.mpris.MediaPlayer2.electron"]));
    assert!(resume_targets(&players, &names(&[])).is_empty());
}

#[test]
fn collecting_marks_suppressed_and_lifts_playing() {
    let mut state = MediaSessionState::new();
    state.suppress("spotify".to_string());
    state.suppress("vlc".to_string());
    let reports = vec![report("Spotify", false, None), report("VLC", true, None)];
    let out = collect_media_sessions(&mut state, &reports, 100);
    assert_eq!(out.sessions.len(), 2);
    assert!(out.sessions[0].is_suppressed);
    assert!(!out.sessions[0].is_resumed);
    assert!(out.sessions[1].is_suppressed);
    assert!(out.sessions[1].is_resumed);
    assert_eq!(out.sessions[1].updated_at, 100);
    assert_eq!(out.sessions[1].can_control, Some(true));
    assert!(state.is_suppressed("spotify"));
    assert!(!state.is_suppressed("vlc"));
}

#[test]
fn collecting_releases_art_no_longer_shown() {
    let mut state = MediaSessionState::new();
    let first = collect_media_sessions(&mut state, &vec![report("a", true, Some("streamq-local://thumbs/x.jpg"))], 1);
    state.emit_if_changed(first.sessions);
    let second = collect_media_sessions(&mut state, &vec![report("a", true, Some("streamq-local://thumbs/y.jpg"))], 2);
    assert_eq!(second.released_art, names(&["streamq-local://thumbs/x.jpg"]));
}

#[test]
fn pausing_suppresses_the_paused() {
    let mut state = MediaSessionState::new();
    let paused = finish_pause(&mut state, &vec![report("Spotify", true, None)], 9);
    assert_eq!(paused.len(), 1);
    let s: &AppMediaSession = &paused[0];
    assert!(!s.is_resumed && s.is_suppressed);
    assert_eq!(s.activated_at, 9);
    assert!(state.is_suppressed("spotify"));
}

#[test]
fn volume_needs_control_and_a_readable_volume() {
    assert!(check_volume_control(true, true).is_ok());
    assert!(matches!(check_volume_control(true, false), Err(NativeError::VolumeNotControllable)));
    assert!(matches!(check_volume_control(false, true), Err(NativeError::VolumeNotControllable)));
}

#[test]
fn art_sources() {
    assert!(matches!(art_source(None), ArtSource::Missing));
    assert!(matches!(art_source(Some("")), ArtSource::Missing));
    assert!(matches!(art_source(Some("streamq-local://thumbs/a.jpg")), ArtSource::Keep(u) if u == "streamq-local://thumbs/a.jpg"));
    assert!(matches!(art_source(Some("https://example.com/a.jpg")), ArtSource::Keep(_)));
    assert!(matches!(art_source(Some("file:///tmp/cover%20art.png")), ArtSource::Local(p) if p == b"/tmp/cover art.png"));
    assert!(matches!(art_source(Some("FILE:///tmp/a.png")), ArtSource::Local(p) if p == b"/tmp/a.png"));
    assert!(matches!(art_source(Some("/home/u/a.png")), ArtSource::Local(p) if p == b"/home/u/a.png"));
    assert!(matches!(art_source(Some("relative/a.png")), ArtSource::Keep(_)));
    assert!(matches!(art_source(Some("file://remote-host/a.png")), ArtSource::Keep(_)));
    assert!(matches!(art_source(Some("file:///tmp/%FF.png")), ArtSource::Local(p) if p == b"/tmp/\xFF.png"));
}

#[test]
fn art_source_for_given_parses() {
    assert!(matches!(art_source_from(Some("x"), Some("file".to_string()), Some(b"/p".to_vec())), ArtSource::Local(p) if p == b"/p"));
    assert!(matches!(art_source_from(Some("x"), Some("http".to_string()), Some(b"/p".to_vec())), ArtSource::Keep(u) if u == "x"));
    assert!(matches!(art_source_from(Some("/a://b"), None, None), ArtSource::Keep(_)));
}

#[test]
fn file_extensions() {
    assert_eq!(file_extension(b"/tmp/cover.png"), ".png");
    assert_eq!(file_extension(b"/tmp/archive.tar.gz"), ".gz");
    assert_eq!(file_extension(b"/tmp/.hidden"), "");
    assert_eq!(file_extension(b"/tmp/noext"), "");
    assert_eq!(file_extension(b"/tmp.d/noext"), "");
    assert_eq!(file_extension(b"/tmp/trailing."), ".");
    assert_eq!(file_extension(b"/tmp/\xFFcover.jpg"), ".jpg");
    assert_eq!(file_extension(b"/tmp/cover.\xFF"), "");
}

#[test]
fn owner_changes_of_players() {
    assert_eq!(owner_change("org.freedesktop.Notifications", Some(":1.2")), OwnerChange::Ignore);
    assert_eq!(owner_change("org.mpris.MediaPlayer2.vlc", Some("")), OwnerChange::PlayerRemoved);
    assert_eq!(owner_change("org.mpris.MediaPlayer2.vlc", None), OwnerChange::PlayerRemoved);
    assert_eq!(owner_change("org.mpris.MediaPlayer2.vlc", Some(":1.9")), OwnerChange::PlayerAppeared);
}

#[test]
fn position_only_changes_need_no_refresh() {
    let player = "org.mpris.MediaPlayer2.Player";
    assert!(!needs_refresh(player, &names(&["Position"])));
    assert!(needs_refresh(player, &names(&["Position", "Metadata"])));
    assert!(needs_refresh(player, &names(&["PlaybackStatus"])));
    assert!(needs_refresh(player, &names(&[])));
    assert!(!needs_refresh("org.mpris.MediaPlayer2", &names(&["Identity"])));
}

#[test]
fn watchers_are_replaced_not_doubled() {
    let mut w = PlayerWatchers::new();
    assert!(!w.replace("a".to_string()));
    assert!(!w.replace("b".to_string()));
    assert!(w.replace("a".to_string()));
    assert!(w.contains("a") && w.contains("b"));
    assert!(w.remove("a"));
    assert!(!w.remove("a"));
    assert!(!w.contains("a"));
    assert!(w.contains("b"));
}

#[test]
fn owner_changes_start_and_stop_watchers() {
    let mut w = PlayerWatchers::new();
    let r = w.on_owner_change("org.freedesktop.Notifications".to_string(), Some(":1.5".to_string()));
    assert!(!r.refresh && !r.start_new && !r.stop_old);
    let r = w.on_owner_change("org.mpris.MediaPlayer2.vlc".to_string(), Some(":1.7".to_string()));
    assert!(r.refresh && r.start_new && !r.stop_old);
    let r = w.on_owner_change("org.mpris.MediaPlayer2.vlc".to_string(), Some(":1.8".to_string()));
    assert!(r.refresh && r.start_new && r.stop_old);
    assert!(w.contains("org.mpris.MediaPlayer2.vlc"));
    let r = w.on_owner_change("org.mpris.MediaPlayer2.vlc".to_string(), Some(String::new()));
    assert!(r.refresh && !r.start_new && r.stop_old);
    assert!(!w.contains("org.mpris.MediaPlayer2.vlc"));
    let r = w.on_owner_change("org.mpris.MediaPlayer2.vlc".to_string(), None);
    assert!(r.refresh && !r.start_new && !r.stop_old);
}
