use streamq_native::error::NativeError;
use streamq_native::models::media::AudioSource;
use streamq_native::platforms::windows::audio_endpoints::{get_audio_sources, EndpointInfo};
use streamq_native::platforms::windows::audio_policy::{
    collect_related_app_audio_pids, get_app_source, persisted_endpoint, routing_unavailable, set_app_source,
    to_policy_device_id, unpack_policy_device_id, SessionProcess,
};
use streamq_native::platforms::windows::audio_sessions::{
    find_audio_session_for_app, get_process_name, process_aliases, SessionCandidate, SessionSample,
    WindowsAudioSessionManager,
};
use streamq_native::platforms::windows::audio_watchers::{AppSourceWatcher, EndpointSubscriptions, VolumeListener};

const RENDER: &str = "#{e6327cad-dcec-4949-ae8a-991e976a79d2}";

#[test]
fn policy_device_ids_wrap_and_unwrap() {
    let id = "{0.0.0.00000000}.{abc}";
    let wrapped = to_policy_device_id(id);
    assert_eq!(wrapped, format!("\\\\?\\SWD#MMDEVAPI#{id}{RENDER}"));
    assert_eq!(unpack_policy_device_id(&wrapped), id);
    assert_eq!(unpack_policy_device_id("plain"), "plain");
    assert_eq!(unpack_policy_device_id("x#{2eef81be-33fa-4800-9670-1cd474972c3f}"), "x");
}

#[test]
fn persisted_endpoints_ignore_blank_values() {
    assert_eq!(persisted_endpoint("   "), None);
    assert_eq!(persisted_endpoint(""), None);
    assert_eq!(persisted_endpoint(&to_policy_device_id("dev")), Some("dev".to_string()));
}

#[test]
fn related_processes_share_our_image_name() {
    let sessions = vec![
        SessionProcess { pid: 0, name: Some("streamq.exe".to_string()) },
        SessionProcess { pid: 7, name: Some("streamq.exe".to_string()) },
        SessionProcess { pid: 8, name: Some("chrome.exe".to_string()) },
        SessionProcess { pid: 7, name: Some("streamq.exe".to_string()) },
        SessionProcess { pid: 5, name: None },
    ];
    let pids = collect_related_app_audio_pids(5, &Some("streamq.exe".to_string()), &sessions);
    assert_eq!(pids, vec![5, 7]);
    let later = vec![
        SessionProcess { pid: 9, name: Some("streamq.exe".to_string()) },
        SessionProcess { pid: 5, name: None },
        SessionProcess { pid: 3, name: Some("streamq.exe".to_string()) },
    ];
    assert_eq!(collect_related_app_audio_pids(5, &Some("streamq.exe".to_string()), &later), vec![5, 9, 3]);
    let alone = collect_related_app_audio_pids(5, &None, &sessions);
    assert_eq!(alone, vec![5]);
}

#[test]
fn app_source_routing_plan() {
    assert!(matches!(set_app_source("dev", false, &vec![1]), Err(NativeError::AudioSourceNotFound(s)) if s == "dev"));
    assert!(matches!(set_app_source("dev", true, &vec![]), Err(NativeError::AppAudioStreamNotFound)));
    assert_eq!(set_app_source("dev", true, &vec![1]).unwrap(), to_policy_device_id("dev"));
    assert!(matches!(routing_unavailable(), NativeError::OperationFailed(_)));
}

#[test]
fn app_source_matches_ids_without_case() {
    let sources = vec![AudioSource { id: "{ABC}".to_string(), name: "Speakers".to_string(), is_default: true, volume: 0 }];
    assert_eq!(get_app_source(&sources, "{abc}").map(|s| s.name), Some("Speakers".to_string()));
    assert!(get_app_source(&sources, "{abd}").is_none());
}

#[test]
fn endpoints_become_sorted_sources() {
    let endpoints = vec![
        EndpointInfo { id: "b".to_string(), friendly_name: Some("Zebra".to_string()), volume: 1 },
        EndpointInfo { id: "A".to_string(), friendly_name: None, volume: 2 },
        EndpointInfo { id: "c".to_string(), friendly_name: Some("apple".to_string()), volume: 3 },
    ];
    let sources = get_audio_sources(&endpoints, "a");
    let names: Vec<&str> = sources.iter().map(|s| s.name.as_str()).collect();
    assert_eq!(names, vec!["A", "apple", "Zebra"]);
    assert!(sources[0].is_default);
}

#[test]
fn process_names_and_aliases() {
    assert_eq!(get_process_name("C:\\Program Files\\Spotify\\Spotify.exe"), "spotify.exe");
    let aliases = process_aliases(&Some("SpotifyAB.SpotifyMusic".to_string()), &Some("C:\\Apps\\Spotify.exe".to_string()));
    assert_eq!(
        aliases,
        vec![
            "spotifyab.spotifymusic".to_string(),
            "c:\\apps\\spotify.exe".to_string(),
            "spotify.exe".to_string(),
            "spotify".to_string(),
        ]
    );
    assert!(process_aliases(&None, &None).is_empty());
}

fn sample(aliases: &[&str], active: bool, is_default: bool, volume: u64, device: &str) -> SessionSample {
    SessionSample {
        aliases: aliases.iter().map(|s| s.to_string()).collect(),
        active,
        is_default,
        app_volume: volume,
        device_id: device.to_string(),
        device_volume: 100,
    }
}

#[test]
fn volumes_come_from_the_best_session() {
    let manager = WindowsAudioSessionManager::new();
    let samples = vec![
        sample(&["spotify", "spotify.exe"], false, true, 1, "d1"),
        sample(&["spotify"], true, false, 2, "d2"),
        sample(&["vlc"], false, false, 3, "d3"),
        sample(&["spotify"], false, true, 4, "d1"),
    ];
    let volumes = manager.get_all_volumes(&samples);
    let find = |name: &str| volumes.iter().find(|(n, _)| n == name).map(|(_, m)| (m.app_volume, m.device_id.clone()));
    assert_eq!(find("spotify"), Some((2, "d2".to_string())));
    assert_eq!(find("spotify.exe"), Some((1, "d1".to_string())));
    assert_eq!(find("vlc"), Some((3, "d3".to_string())));
    assert_eq!(volumes.len(), 3);
}

#[test]
fn alias_cache_remembers_processes() {
    let mut manager = WindowsAudioSessionManager::new();
    assert!(manager.cached_aliases(4).is_none());
    manager.remember_aliases(4, &vec!["a".to_string()]);
    manager.remember_aliases(5, &vec![]);
    assert_eq!(manager.cached_aliases(4), Some(vec!["a".to_string()]));
    assert!(manager.cached_aliases(5).is_none());
}

fn cand(aliases: &[&str], active: bool, is_default: bool) -> SessionCandidate {
    SessionCandidate { aliases: aliases.iter().map(|s| s.to_string()).collect(), active, is_default }
}

#[test]
fn volume_session_prefers_playing_on_default() {
    let cands = vec![
        cand(&["app"], false, false),
        cand(&["app"], true, false),
        cand(&["app"], true, true),
        cand(&["app"], true, true),
        cand(&["other"], true, true),
    ];
    assert_eq!(find_audio_session_for_app(&cands, "app"), Some(2));
    let no_default = vec![cand(&["app"], true, false), cand(&["app"], true, false), cand(&["app"], false, true)];
    assert_eq!(find_audio_session_for_app(&no_default, "app"), Some(1));
    let idle = vec![cand(&["app"], false, false), cand(&["app"], false, true), cand(&["app"], false, true)];
    assert_eq!(find_audio_session_for_app(&idle, "app"), Some(2));
    let idle_elsewhere = vec![cand(&["app"], false, false), cand(&["app"], false, false)];
    assert_eq!(find_audio_session_for_app(&idle_elsewhere, "app"), Some(0));
    assert_eq!(find_audio_session_for_app(&idle_elsewhere, "missing"), None);
}

#[test]
fn app_source_watcher_announces_changes_only() {
    let mut watcher = AppSourceWatcher::new(1000);
    assert_eq!(watcher.poll_interval_ms(), 1000);
    let a = Some(AudioSource { id: "a".to_string(), name: "A".to_string(), is_default: false, volume: 1 });
    let b = Some(AudioSource { id: "a".to_string(), name: "A".to_string(), is_default: false, volume: 2 });
    assert!(watcher.observe(&None));
    assert!(!watcher.observe(&None));
    assert!(watcher.observe(&a));
    assert!(!watcher.observe(&a));
    assert!(watcher.observe(&b));
}

#[test]
fn endpoint_subscriptions_follow_the_listed_endpoints() {
    let mut subs = EndpointSubscriptions::new();
    let listed = vec![Some("a".to_string()), None, Some("".to_string()), Some("b".to_string()), Some("a".to_string())];
    let plan = subs.plan_sync(&listed);
    assert_eq!(plan.subscribe, vec!["a".to_string(), "b".to_string()]);
    assert!(plan.unsubscribe.is_empty());
    subs.subscribed("a".to_string());
    subs.subscribed("b".to_string());
    let plan = subs.plan_sync(&vec![Some("b".to_string()), Some("c".to_string())]);
    assert_eq!(plan.subscribe, vec!["c".to_string()]);
    assert_eq!(plan.unsubscribe, vec!["a".to_string()]);
    subs.unsubscribed("a");
    subs.subscribed("c".to_string());
    let plan = subs.plan_sync(&vec![Some("b".to_string()), Some("c".to_string())]);
    assert!(plan.subscribe.is_empty() && plan.unsubscribe.is_empty());
    assert_eq!(VolumeListener::new().rescan_interval_ms, 2000);
}

#[test]
fn a_sync_pass_follows_what_subscribed() {
    let mut subs = EndpointSubscriptions::new();
    let listed = vec![Some("a".to_string()), Some("b".to_string())];
    let plan = subs.plan_sync(&listed);
    subs.finish_sync(&listed, &plan, &vec![true, false]);
    let again = subs.plan_sync(&listed);
    assert_eq!(again.subscribe, vec!["b".to_string()]);
    assert!(again.unsubscribe.is_empty());
    let listed = vec![Some("b".to_string())];
    let plan = subs.plan_sync(&listed);
    assert_eq!(plan.unsubscribe, vec!["a".to_string()]);
    subs.finish_sync(&listed, &plan, &vec![true]);
    let settled = subs.plan_sync(&listed);
    assert!(settled.subscribe.is_empty() && settled.unsubscribe.is_empty());
}
