use streamq_native::api::mpris::Mpris;
use streamq_native::config::Config;
use streamq_native::models::mpris::{MprisMetadata, MprisPlaybackState};
use streamq_native::platforms::linux::mpris::{
    command_is_publishable, parse_repeat, parse_status, repeat_name, track_id_is_valid, MprisCommand, MprisManager,
    MprisPlayerState, PlayStatus, PropertyChange, Repeat,
};

fn meta(id: &str, artist: &str, volume: Option<f64>) -> MprisMetadata {
    MprisMetadata {
        id: id.to_string(),
        title: "Title".to_string(),
        artist: artist.to_string(),
        album: "Album".to_string(),
        length: Some(1000.0f64.to_bits()),
        art_url: None,
        url: Some("https://example.com".to_string()),
        volume: volume.map(|v| v.to_bits()),
    }
}

fn empty_update() -> MprisPlaybackState {
    MprisPlaybackState { status: None, position: None, volume: None, shuffle: None, repeat: None }
}

#[test]
fn statuses_and_loops_are_parsed() {
    assert_eq!(parse_status("playing"), PlayStatus::Playing);
    assert_eq!(parse_status("paused"), PlayStatus::Paused);
    assert_eq!(parse_status("Playing"), PlayStatus::Stopped);
    assert_eq!(parse_repeat("track"), Repeat::Track);
    assert_eq!(parse_repeat("playlist"), Repeat::Playlist);
    assert_eq!(parse_repeat("none"), Repeat::Off);
    assert_eq!(parse_repeat("anything"), Repeat::Off);
}

#[test]
fn loop_names_round_trip() {
    for r in [Repeat::Off, Repeat::Track, Repeat::Playlist] {
        assert_eq!(parse_repeat(&repeat_name(r)), r);
    }
    assert_eq!(repeat_name(Repeat::Off), "none");
}

#[test]
fn track_ids_must_make_object_paths() {
    assert!(track_id_is_valid("abc123"));
    assert!(track_id_is_valid("a_b/c"));
    assert!(!track_id_is_valid("a-b"));
    assert!(!track_id_is_valid(""));
    assert!(!track_id_is_valid("a//b"));
    assert!(!track_id_is_valid("a/"));
    assert!(!command_is_publishable(&MprisCommand::UpdateMetadata(Some(meta("x-y", "", None)))));
    assert!(command_is_publishable(&MprisCommand::UpdateMetadata(None)));
}

#[test]
fn new_player_is_stopped_at_full_volume() {
    let p = MprisPlayerState::new();
    assert_eq!(p.status, PlayStatus::Stopped);
    assert!(p.metadata.is_none());
    assert_eq!(f64::from_bits(p.volume), 1.0);
    assert!(!p.shuffle);
    assert_eq!(p.loop_status, Repeat::Off);
}

#[test]
fn metadata_is_published_with_its_volume() {
    let mut p = MprisPlayerState::new();
    let up = p.update_metadata(Some(meta("t1", "Artist", Some(0.5))));
    let m = p.metadata.clone().unwrap();
    assert_eq!(m.track_id, "/io/streamq/track/t1");
    assert_eq!(m.artist, Some("Artist".to_string()));
    assert_eq!(f64::from_bits(p.volume), 0.5);
    assert_eq!(up.changes.len(), 2);
    assert!(matches!(&up.changes[0], PropertyChange::Metadata(Some(x)) if x.title == "Title"));
    assert!(matches!(up.changes[1], PropertyChange::Volume(v) if f64::from_bits(v) == 0.5));
    assert!(!up.restart_clock);
}

#[test]
fn empty_artist_is_not_published() {
    let mut p = MprisPlayerState::new();
    let up = p.update_metadata(Some(meta("t1", "", None)));
    assert!(p.metadata.unwrap().artist.is_none());
    assert_eq!(up.changes.len(), 1);
}

#[test]
fn clearing_resets_the_player() {
    let mut p = MprisPlayerState::new();
    p.update_metadata(Some(meta("t1", "A", Some(0.3))));
    p.update_playback_state(
        &MprisPlaybackState { status: Some("playing".into()), position: Some(5.0f64.to_bits()), volume: None, shuffle: Some(true), repeat: Some("track".into()) },
        0,
    );
    let up = p.update_metadata(None);
    assert_eq!(p.status, PlayStatus::Stopped);
    assert!(p.metadata.is_none());
    assert_eq!(p.position, 0);
    assert!(!p.shuffle);
    assert_eq!(p.loop_status, Repeat::Off);
    assert_eq!(f64::from_bits(p.volume), 0.3);
    assert!(up.restart_clock);
    assert_eq!(up.changes.len(), 4);
    assert!(matches!(up.changes[0], PropertyChange::PlaybackStatus(PlayStatus::Stopped)));
    assert!(matches!(up.changes[1], PropertyChange::Metadata(None)));
    assert!(matches!(up.changes[2], PropertyChange::Shuffle(false)));
    assert!(matches!(up.changes[3], PropertyChange::LoopStatus(Repeat::Off)));
}

#[test]
fn playback_update_announces_what_it_carries() {
    let mut p = MprisPlayerState::new();
    let u = MprisPlaybackState {
        status: Some("paused".into()),
        position: None,
        volume: Some(0.25f64.to_bits()),
        shuffle: None,
        repeat: Some("playlist".into()),
    };
    let up = p.update_playback_state(&u, 42);
    assert_eq!(p.position, 42);
    assert_eq!(p.status, PlayStatus::Paused);
    assert_eq!(p.loop_status, Repeat::Playlist);
    assert!(up.restart_clock);
    assert_eq!(up.changes.len(), 3);
    assert!(matches!(up.changes[0], PropertyChange::PlaybackStatus(PlayStatus::Paused)));
    assert!(matches!(up.changes[1], PropertyChange::Volume(_)));
    assert!(matches!(up.changes[2], PropertyChange::LoopStatus(Repeat::Playlist)));
}

#[test]
fn a_position_wins_over_the_clock() {
    let mut p = MprisPlayerState::new();
    let u = MprisPlaybackState { status: Some("playing".into()), position: Some(7), volume: None, shuffle: None, repeat: None };
    p.update_playback_state(&u, 99);
    assert_eq!(p.position, 7);
}

#[test]
fn an_empty_update_is_silent() {
    let mut p = MprisPlayerState::new();
    p.position = 3;
    let up = p.update_playback_state(&empty_update(), 99);
    assert!(up.changes.is_empty());
    assert!(!up.restart_clock);
    assert_eq!(p.position, 3);
}

#[test]
fn manager_drops_updates_until_started() {
    let cfg = Config { debug: false, keybinds: vec![], extract_thumbnails: None };
    let mut m = MprisManager::new(cfg);
    assert!(m.update_metadata(None).is_none());
    let setup = m.init();
    assert_eq!(setup.bus_name, "streamq");
    assert_eq!(setup.identity, "StreamQ");
    assert_eq!(setup.desktop_entry, "streamq");
    assert!(!setup.can_quit && !setup.can_raise && !setup.has_track_list && !setup.can_set_fullscreen);
    assert!(setup.can_control);
    assert_eq!(f64::from_bits(setup.rate), 1.0);
    assert_eq!(setup.player.status, PlayStatus::Stopped);
    assert!(setup.player.metadata.is_none());
    assert_eq!(setup.player.position, 0);
    assert_eq!(f64::from_bits(setup.player.volume), 1.0);
    assert!(!setup.player.shuffle);
    assert_eq!(setup.player.loop_status, Repeat::Off);
    assert!(matches!(m.update_metadata(None), Some(MprisCommand::UpdateMetadata(None))));
    assert!(matches!(m.update_playback_state(empty_update()), Some(MprisCommand::UpdatePlaybackState(_))));
}

#[test]
fn mpris_surface_without_player_does_nothing() {
    let mut dummy = Mpris::new_dummy();
    assert!(dummy.init().is_none());
    assert!(dummy.update_metadata(None).is_none());
    let cfg = Config { debug: false, keybinds: vec![], extract_thumbnails: None };
    let mut real = Mpris::from_manager(MprisManager::new(cfg));
    assert!(real.update_playback_state(empty_update()).is_none());
    assert!(real.init().is_some());
    assert!(real.update_metadata(None).is_some());
}

#[test]
fn handled_commands_change_the_player() {
    let mut p = MprisPlayerState::new();
    p.handle(MprisCommand::UpdateMetadata(Some(meta("ok", "A", None))), 0);
    assert!(p.metadata.is_some());
    p.handle(MprisCommand::UpdatePlaybackState(MprisPlaybackState { status: Some("playing".into()), ..empty_update() }), 5);
    assert_eq!(p.status, PlayStatus::Playing);
    assert_eq!(p.position, 5);
}
