use streamq_native::models::media::{double_bits_eq, sort_audio_sources, AppMediaSession, AudioSource, MediaSessionState, FULL_VOLUME_BITS};

fn session(app: &str, title: &str, playing: bool, at: u64) -> AppMediaSession {
    AppMediaSession {
        app: app.to_string(),
        title: Some(title.to_string()),
        artist: None,
        is_resumed: playing,
        is_suppressed: false,
        volume: None,
        device: None,
        device_volume: None,
        can_control: None,
        updated_at: at,
        activated_at: at,
        url: None,
        art: None,
        position: None,
        duration: None,
    }
}

fn source(id: &str, name: &str, is_default: bool) -> AudioSource {
    AudioSource { id: id.to_string(), name: name.to_string(), is_default, volume: 0 }
}

#[test]
fn new_state_is_empty_at_full_volume() {
    let state = MediaSessionState::new();
    assert!(state.sessions().is_empty());
    assert_eq!(state.system_volume(), FULL_VOLUME_BITS);
    assert_eq!(f64::from_bits(state.system_volume()), 1.0);
    assert!(!state.is_suppressed("spotify"));
}

#[test]
fn first_report_is_emitted() {
    let mut state = MediaSessionState::new();
    let out = state.emit_if_changed(vec![session("Spotify", "A", true, 10)]);
    let out = out.expect("first report must be emitted");
    assert_eq!(out.len(), 1);
    assert_eq!(out[0].app, "Spotify");
    assert_eq!(state.sessions().len(), 1);
}

#[test]
fn second_identical_report_is_silent() {
    let mut state = MediaSessionState::new();
    assert!(state.emit_if_changed(vec![session("Spotify", "A", true, 10)]).is_some());
    assert!(state.emit_if_changed(vec![session("Spotify", "A", true, 20)]).is_none());
    assert_eq!(state.sessions()[0].updated_at, 10);
}

#[test]
fn unchanged_content_keeps_timestamps() {
    let mut state = MediaSessionState::new();
    let mut first = session("Spotify", "A", true, 10);
    first.position = Some(1);
    state.emit_if_changed(vec![first]);
    let mut moved = session("Spotify", "A", true, 50);
    moved.position = Some(2);
    let out = state.emit_if_changed(vec![moved]).expect("a moved position is a change");
    assert_eq!(out[0].updated_at, 50);
    assert_eq!(out[0].activated_at, 10);
}

#[test]
fn new_track_renews_both_timestamps() {
    let mut state = MediaSessionState::new();
    state.emit_if_changed(vec![session("Spotify", "A", true, 10)]);
    let out = state.emit_if_changed(vec![session("Spotify", "B", true, 30)]).unwrap();
    assert_eq!(out[0].updated_at, 30);
    assert_eq!(out[0].activated_at, 30);
}

#[test]
fn a_session_that_leaves_is_a_change() {
    let mut state = MediaSessionState::new();
    state.emit_if_changed(vec![session("A", "x", true, 1), session("B", "y", true, 1)]);
    let out = state.emit_if_changed(vec![session("A", "x", true, 2)]);
    assert_eq!(out.map(|v| v.len()), Some(1));
}

#[test]
fn suppression_is_kept_once_and_lifted_by_play() {
    let mut state = MediaSessionState::new();
    state.suppress("spotify".to_string());
    state.suppress("spotify".to_string());
    assert!(state.is_suppressed("spotify"));
    state.retain_not_playing(&vec!["firefox".to_string()]);
    assert!(state.is_suppressed("spotify"));
    state.retain_not_playing(&vec!["spotify".to_string()]);
    assert!(!state.is_suppressed("spotify"));
}

#[test]
fn resume_lifts_suppression_whatever_the_case() {
    let mut state = MediaSessionState::new();
    state.suppress("spotify".to_string());
    state.suppress("vlc".to_string());
    state.unsuppress(&vec!["SPOTIFY".to_string()]);
    assert!(!state.is_suppressed("spotify"));
    assert!(state.is_suppressed("vlc"));
}

#[test]
fn system_volume_is_stored() {
    let mut state = MediaSessionState::new();
    state.set_system_volume(0.5f64.to_bits());
    assert_eq!(f64::from_bits(state.system_volume()), 0.5);
}

#[test]
fn sources_sort_default_first_then_by_name() {
    let sorted = sort_audio_sources(vec![
        source("3", "zeta", false),
        source("1", "Beta", false),
        source("2", "alpha", true),
        source("4", "alpha", false),
    ]);
    let ids: Vec<&str> = sorted.iter().map(|s| s.id.as_str()).collect();
    assert_eq!(ids, vec!["2", "4", "1", "3"]);
}

#[test]
fn equal_sources_keep_their_order() {
    let sorted = sort_audio_sources(vec![source("b", "same", false), source("a", "Same", false)]);
    assert_eq!(sorted[0].id, "b");
    assert_eq!(sorted[1].id, "a");
}

#[test]
fn volumes_compare_as_doubles() {
    assert!(double_bits_eq(0.5f64.to_bits(), 0.5f64.to_bits()));
    assert!(double_bits_eq(0.0f64.to_bits(), (-0.0f64).to_bits()));
    assert!(!double_bits_eq(f64::NAN.to_bits(), f64::NAN.to_bits()));
    assert!(!double_bits_eq(0.5f64.to_bits(), 0.25f64.to_bits()));
    let a = AudioSource { id: "x".into(), name: "X".into(), is_default: true, volume: 0.0f64.to_bits() };
    let b = AudioSource { id: "x".into(), name: "X".into(), is_default: true, volume: (-0.0f64).to_bits() };
    assert!(a.equals(&b));
    let n = AudioSource { id: "x".into(), name: "X".into(), is_default: true, volume: f64::NAN.to_bits() };
    assert!(!n.equals(&n.duplicate()));
}
