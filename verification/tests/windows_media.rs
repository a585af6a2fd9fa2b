use streamq_native::error::NativeError;
use streamq_native::models::media::MediaSessionState;
use streamq_native::platforms::windows::audio_sessions::VolumeMatch;
use streamq_native::platforms::windows::media_session_control::{
    finish_pause, handle_playback_update, is_streamq, pause_targets, record_pause, refresh_sessions, resume_targets,
    select_sessions, volume_target, SessionHeader, SessionRead, TransportReport,
};
use streamq_native::platforms::windows::media_session_events::{receive_response, worker_unavailable, Reply};

fn header(app: Option<&str>, playing: bool) -> SessionHeader {
    SessionHeader { app_id: app.map(|a| a.to_string()), is_playing: playing }
}

fn report(app: &str, playing: bool) -> TransportReport {
    TransportReport {
        app: app.to_string(),
        is_playing: playing,
        title: Some("T".to_string()),
        artist: Some("A".to_string()),
        art: None,
        position: None,
        duration: None,
    }
}

fn names(v: &[&str]) -> Vec<String> {
    v.iter().map(|s| s.to_string()).collect()
}

#[test]
fn host_session_is_recognised() {
    assert!(is_streamq("electron.exe".to_string(), true));
    assert!(!is_streamq("electron.exe".to_string(), false));
    assert!(is_streamq("streamq.exe".to_string(), false));
}

#[test]
fn refresh_reports_the_first_session_of_each_app() {
    let headers = vec![
        header(Some("Spotify.exe"), true),
        header(None, true),
        header(Some("spotify.exe"), false),
        header(Some("streamq.exe"), true),
        header(Some("chrome.exe"), false),
    ];
    assert_eq!(select_sessions(&headers, false), vec![0, 4]);
    assert_eq!(select_sessions(&vec![], false), Vec::<usize>::new());
}

#[test]
fn pause_and_resume_targets() {
    let headers = vec![
        header(Some("Spotify.exe"), true),
        header(Some("spotify.exe"), false),
        header(Some("electron.exe"), true),
        header(None, true),
    ];
    assert_eq!(pause_targets(&headers, &names(&["SPOTIFY.EXE", "electron.exe"]), true), vec![0]);
    assert_eq!(pause_targets(&headers, &names(&["electron.exe"]), false), vec![2]);
    assert_eq!(resume_targets(&headers, &names(&["spotify.exe"])), vec![0, 1]);
}

#[test]
fn volume_target_or_unknown_player() {
    let headers = vec![header(None, false), header(Some("VLC.exe"), false), header(Some("vlc.exe"), true)];
    assert_eq!(volume_target(&headers, "vlc.EXE").unwrap(), 1);
    assert!(matches!(volume_target(&headers, "mpv.exe"), Err(NativeError::PlayerNotFound(a)) if a == "mpv.exe"));
}

#[test]
fn refresh_builds_and_reports_sessions() {
    let mut state = MediaSessionState::new();
    state.suppress("spotify.exe".to_string());
    state.suppress("chrome.exe".to_string());
    let volumes = vec![(
        "spotify.exe".to_string(),
        VolumeMatch { app_volume: 0.5f64.to_bits(), device_id: "dev".to_string(), device_volume: 1.0f64.to_bits() },
    )];
    let reports = vec![report("Spotify.exe", false), report("Chrome.exe", true)];
    let up = handle_playback_update(&mut state, &reports, &volumes, 77);
    let sessions = up.changed.expect("a first round is reported");
    assert_eq!(sessions.len(), 2);
    assert_eq!(sessions[0].device, Some("dev".to_string()));
    assert_eq!(sessions[0].volume.map(f64::from_bits), Some(0.5));
    assert!(sessions[0].is_suppressed);
    assert_eq!(sessions[1].device, None);
    assert!(sessions[1].is_suppressed);
    assert!(sessions[1].is_resumed);
    assert_eq!(sessions[1].can_control, None);
    assert!(state.is_suppressed("spotify.exe"));
    assert!(!state.is_suppressed("chrome.exe"));
    let again = handle_playback_update(&mut state, &vec![report("Spotify.exe", false), report("Chrome.exe", true)], &volumes, 99);
    assert!(again.changed.is_some());
    let third = handle_playback_update(&mut state, &vec![report("Spotify.exe", false), report("Chrome.exe", true)], &volumes, 120);
    assert!(third.changed.is_none());
}

#[test]
fn paused_sessions_are_suppressed() {
    let mut state = MediaSessionState::new();
    let paused = finish_pause(&mut state, &vec![report("VLC.exe", true)], &vec![], 5);
    assert_eq!(paused.len(), 1);
    assert!(paused[0].is_suppressed && !paused[0].is_resumed);
    assert!(state.is_suppressed("vlc.exe"));
}

#[test]
fn worker_replies() {
    assert_eq!(receive_response::<u32>(Reply::Answered(Ok(3))).unwrap(), 3);
    assert!(matches!(receive_response::<u32>(Reply::Answered(Err(NativeError::WindowNotFound))), Err(NativeError::WindowNotFound)));
    assert!(matches!(receive_response::<()>(Reply::TimedOut), Err(NativeError::MediaSession(m)) if m == "Media transport operation timed out"));
    assert!(matches!(receive_response::<()>(Reply::WorkerStopped), Err(NativeError::MediaSession(m)) if m == "Media transport worker stopped"));
    assert!(matches!(worker_unavailable(), NativeError::MediaSession(m) if m == "Media transport worker is unavailable"));
}

fn read(title: &str) -> SessionRead {
    SessionRead { title: Some(title.to_string()), artist: None, art: None, position: Some(2.5f64.to_bits()), duration: None }
}

#[test]
fn refresh_reads_the_first_session_of_each_app() {
    let headers = vec![
        header(Some("Spotify.exe"), true),
        header(Some("streamq.exe"), true),
        header(Some("spotify.exe"), false),
        header(None, true),
        header(Some("Chrome"), false),
    ];
    let reads = vec![read("one"), read("host"), read("dup"), read("none"), read("two")];
    let mut state = MediaSessionState::new();
    state.suppress("chrome".to_string());
    let refresh = refresh_sessions(&mut state, &headers, &reads, &vec![], false, 7);
    assert_eq!(refresh.reported, vec![0, 4]);
    let sessions = refresh.update.changed.expect("the sessions changed");
    assert_eq!(sessions.len(), 2);
    assert_eq!(sessions[0].app, "Spotify.exe");
    assert_eq!(sessions[0].title.as_deref(), Some("one"));
    assert!(sessions[0].is_resumed);
    assert!(!sessions[0].is_suppressed);
    assert_eq!(sessions[1].app, "Chrome");
    assert_eq!(sessions[1].title.as_deref(), Some("two"));
    assert!(sessions[1].is_suppressed);
    assert_eq!(sessions[1].position, Some(2.5f64.to_bits()));
    assert!(state.is_suppressed("chrome"));
}

#[test]
fn pause_records_the_targets_that_paused() {
    let headers = vec![header(Some("Spotify.exe"), true), header(Some("chrome"), true), header(Some("vlc"), true)];
    let outcomes = vec![Some(read("song")), None, Some(read("film"))];
    let mut state = MediaSessionState::new();
    let record = record_pause(&mut state, &headers, &names(&["spotify.exe", "Chrome"]), false, &outcomes, &vec![], 3);
    assert_eq!(record.targets, vec![0, 1]);
    assert_eq!(record.paused.len(), 1);
    assert_eq!(record.paused[0].app, "Spotify.exe");
    assert_eq!(record.paused[0].title.as_deref(), Some("song"));
    assert!(!record.paused[0].is_resumed);
    assert!(record.paused[0].is_suppressed);
    assert!(state.is_suppressed("spotify.exe"));
    assert!(!state.is_suppressed("chrome"));
    assert!(!state.is_suppressed("vlc"));
}
