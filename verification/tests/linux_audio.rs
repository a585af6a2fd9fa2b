use streamq_native::models::media::{AudioSource, MediaSessionState};
use streamq_native::platforms::linux::audio_endpoints::{default_volume, get_audio_sources, SinkInfo};
use streamq_native::platforms::linux::audio_policy::{
    app_sink_index, get_app_source, is_streamq_app_by_props, is_streamq_app_name, set_app_source, SinkInputInfo,
};
use streamq_native::platforms::linux::audio_sessions::{
    first_cmdline_arg, proc_aliases, AudioSessionManager, AudioStreamCache, ClientEntry, SinkEntry, SinkInputEntry,
    SinkLookup,
};
use streamq_native::platforms::linux::audio_watchers::{PulseFacility, PulseOperation, VolumeListener};
use streamq_native::error::NativeError;

fn bits(v: f64) -> u64 {
    v.to_bits()
}

fn sink(name: &str, description: Option<&str>, volume: f64) -> SinkInfo {
    SinkInfo { name: Some(name.to_string()), description: description.map(|d| d.to_string()), volume: bits(volume) }
}

fn input(index: u32, sink: u32, pid: Option<&str>, binary: Option<&str>, app_name: Option<&str>) -> SinkInputInfo {
    SinkInputInfo {
        index,
        sink,
        pid: pid.map(|s| s.to_string()),
        binary: binary.map(|s| s.to_string()),
        app_name: app_name.map(|s| s.to_string()),
    }
}

#[test]
fn streamq_names() {
    assert!(is_streamq_app_name("StreamQ", false));
    assert!(is_streamq_app_name("my-streamq-helper", false));
    assert!(!is_streamq_app_name("electron", false));
    assert!(is_streamq_app_name("Electron", true));
    assert!(!is_streamq_app_name("streamq", true));
}

#[test]
fn streamq_streams_by_properties() {
    assert!(is_streamq_app_by_props("42", Some("42"), None, None, false));
    assert!(!is_streamq_app_by_props("42", Some("43"), None, None, false));
    assert!(is_streamq_app_by_props("42", None, Some("streamq"), None, false));
    assert!(is_streamq_app_by_props("42", None, None, Some("StreamQ Player"), false));
    assert!(!is_streamq_app_by_props("42", None, Some("firefox"), Some("Firefox"), false));
}

#[test]
fn sources_are_deduplicated_and_sorted() {
    let sinks = vec![
        sink("b", Some("Speakers"), 0.5),
        sink("a", Some("headphones"), 1.0),
        sink("b", Some("Duplicate"), 0.1),
        SinkInfo { name: None, description: Some("Nameless".to_string()), volume: 0 },
        sink("c", None, 0.25),
    ];
    let sources = get_audio_sources(&sinks, "b");
    let ids: Vec<&str> = sources.iter().map(|s| s.id.as_str()).collect();
    assert_eq!(ids, vec!["b", "c", "a"]);
    assert_eq!(sources[0].name, "Speakers");
    assert!(sources[0].is_default);
    assert_eq!(sources[1].name, "c");
    assert_eq!(default_volume(&sources), Some(bits(0.5)));
}

#[test]
fn app_source_moves_our_streams() {
    let names = vec![Some("b".to_string()), None];
    let inputs = vec![input(1, 0, Some("42"), None, None), input(2, 0, None, Some("firefox"), None), input(3, 1, None, None, Some("StreamQ"))];
    assert_eq!(set_app_source("b", &names, &inputs, "42", false).unwrap(), vec![1, 3]);
    assert!(matches!(set_app_source("z", &names, &inputs, "42", false), Err(NativeError::AudioSourceNotFound(s)) if s == "z"));
    assert!(matches!(set_app_source("b", &names, &inputs[1..2].to_vec(), "42", false), Err(NativeError::AppAudioStreamNotFound)));
}

#[test]
fn app_source_is_the_sink_of_our_first_stream() {
    let inputs = vec![input(1, 7, None, Some("firefox"), None), input(2, 9, Some("42"), None, None)];
    assert_eq!(app_sink_index(&inputs, "42", false), Some(9));
    assert_eq!(app_sink_index(&inputs, "1", false), None);
    let sources = vec![AudioSource { id: "x".to_string(), name: "X".to_string(), is_default: false, volume: 0 }];
    assert_eq!(get_app_source(&sources, "x").map(|s| s.name), Some("X".to_string()));
    assert!(get_app_source(&sources, "y").is_none());
}

fn sink_entry(index: u32, name: &str, volume: f64) -> SinkEntry {
    SinkEntry { index, name: Some(name.to_string()), volume: bits(volume) }
}

fn client(index: u32, pid: Option<&str>, name: Option<&str>) -> ClientEntry {
    ClientEntry { index, pid: pid.map(|s| s.to_string()), binary: None, name: name.map(|s| s.to_string()), app_id: None }
}

fn stream(sink: u32, client: Option<u32>, pid: Option<&str>, name: Option<&str>) -> SinkInputEntry {
    SinkInputEntry { sink, client, pid: pid.map(|s| s.to_string()), binary: None, name: name.map(|s| s.to_string()), app_id: None }
}

#[test]
fn cache_files_streams_by_process_and_name() {
    let sinks = vec![sink_entry(0, "speakers", 0.8), sink_entry(1, "headset", 0.3)];
    let clients = vec![client(5, Some("77"), Some("Firefox"))];
    let inputs = vec![stream(0, Some(5), None, Some("Firefox Audio")), stream(1, None, Some("88"), Some("Spotify")), stream(9, None, Some("99"), Some("Lost"))];
    let mut cache = AudioStreamCache::new();
    cache.update(&sinks, &clients, &inputs);
    assert_eq!(cache.get_sink_info(77, "whatever"), Some(("speakers".to_string(), bits(0.8))));
    assert_eq!(cache.get_sink_info(88, "x"), Some(("headset".to_string(), bits(0.3))));
    assert_eq!(cache.get_sink_info(0, "spotify.desktop"), Some(("headset".to_string(), bits(0.3))));
    assert_eq!(cache.get_sink_info(99, "lost"), None);
    assert_eq!(cache.get_sink_info_by_aliases(&vec!["firefox-bin".to_string(), "firefox".to_string()]), Some(("speakers".to_string(), bits(0.8))));
}

#[test]
fn manager_asks_for_aliases_once() {
    let sinks = vec![sink_entry(0, "speakers", 1.0)];
    let inputs = vec![stream(0, None, Some("10"), Some("chromium"))];
    let mut manager = AudioSessionManager::new();
    manager.update_cache(&sinks, &vec![], &inputs);
    assert!(matches!(manager.get_sink_info(10, "anything"), SinkLookup::Found(d, _) if d == "speakers"));
    assert!(matches!(manager.get_sink_info(0, "nothing"), SinkLookup::NotFound));
    assert!(matches!(manager.get_sink_info(11, "brave"), SinkLookup::NeedAliases));
    let found = manager.finish_lookup(11, vec!["chromium".to_string()]);
    assert_eq!(found, Some(("speakers".to_string(), bits(1.0))));
    assert!(matches!(manager.get_sink_info(11, "brave"), SinkLookup::Found(_, _)));
    assert_eq!(manager.cached_aliases(11).map(|v| v.len()), Some(1));
    assert!(manager.cached_aliases(12).is_none());
}

#[test]
fn process_aliases_come_from_proc_files() {
    let stat = Some("1234 (Firefox-bin) S 1 2 3".to_string());
    let exe = Some("firefox".to_string());
    let flatpak = Some("[Application]\r\nname=org.mozilla.Firefox\nruntime=x".to_string());
    let names = proc_aliases(&stat, &exe, &flatpak);
    assert_eq!(names, vec!["firefox".to_string(), "org.mozilla.firefox".to_string()]);
    assert!(proc_aliases(&None, &None, &None).is_empty());
    assert_eq!(first_cmdline_arg("/usr/bin/vlc\0--started\0"), "/usr/bin/vlc");
}

#[test]
fn listener_marks_what_is_stale() {
    let mut listener = VolumeListener::new(false);
    assert!(listener.take_volume_dirty());
    assert!(!listener.take_volume_dirty());
    assert!(listener.take_app_source_dirty());
    listener.on_event(PulseFacility::Sink, PulseOperation::New);
    assert!(!listener.take_volume_dirty());
    listener.on_event(PulseFacility::Server, PulseOperation::Changed);
    assert!(listener.take_volume_dirty());
    listener.on_event(PulseFacility::SinkInput, PulseOperation::Removed);
    assert!(listener.take_app_source_dirty());
    listener.on_event(PulseFacility::Other, PulseOperation::Changed);
    assert!(!listener.take_volume_dirty());
    assert!(!listener.take_app_source_dirty());
}

#[test]
fn listener_announces_changed_app_source_once() {
    let mut listener = VolumeListener::new(true);
    let src = Some(AudioSource { id: "a".to_string(), name: "A".to_string(), is_default: true, volume: 0 });
    assert!(listener.on_app_source(&src));
    assert!(!listener.on_app_source(&src));
    assert!(listener.on_app_source(&None));
    assert!(!listener.on_app_source(&None));
}

#[test]
fn listener_takes_the_default_volume() {
    let listener = VolumeListener::new(false);
    let mut state = MediaSessionState::new();
    let sources = vec![
        AudioSource { id: "a".to_string(), name: "A".to_string(), is_default: false, volume: bits(0.2) },
        AudioSource { id: "b".to_string(), name: "B".to_string(), is_default: true, volume: bits(0.7) },
    ];
    listener.on_sources(&mut state, &sources);
    assert_eq!(state.system_volume(), bits(0.7));
    listener.on_sources(&mut state, &vec![]);
    assert_eq!(state.system_volume(), bits(0.7));
}
