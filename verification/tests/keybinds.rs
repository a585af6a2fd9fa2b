use streamq_native::config::{Config, Keybind};
use streamq_native::platforms::linux::keybinds::{
    sanitize_dbus_id, should_use_portal, Activation, KeybindsManager, PortalCommand, PortalState, ShortcutDefinition,
    UpdatePlan,
};
use streamq_native::platforms::windows::keybinds::{
    check_keybind_match, mouse_button_vk, wheel_vk, HookState, KeybindsManager as WindowsKeybinds, MouseButton,
};

fn kb(action: Option<&str>, label: Option<&str>, bind: &[&str]) -> Keybind {
    Keybind {
        action: action.map(|s| s.to_string()),
        label: label.map(|s| s.to_string()),
        bind: bind.iter().map(|s| s.to_string()).collect(),
    }
}

fn def(action: &str, label: &str) -> ShortcutDefinition {
    ShortcutDefinition { action: action.to_string(), label: label.to_string() }
}

fn config(keybinds: Vec<Keybind>) -> Config {
    Config { debug: false, keybinds, extract_thumbnails: None }
}

#[test]
fn portal_desktops() {
    assert!(should_use_portal("Hyprland"));
    assert!(should_use_portal("sway"));
    assert!(should_use_portal("KDE"));
    assert!(should_use_portal("ubuntu:GNOME:plasma"));
    assert!(!should_use_portal("GNOME"));
    assert!(!should_use_portal(""));
}

#[test]
fn dbus_ids_are_sanitized() {
    assert_eq!(sanitize_dbus_id("toggle-mute"), "toggle_mute");
    assert_eq!(sanitize_dbus_id("9lives"), "_9lives");
    assert_eq!(sanitize_dbus_id("a1_b2"), "a1_b2");
    assert_eq!(sanitize_dbus_id("é"), "_");
    assert_eq!(sanitize_dbus_id(""), "");
}

#[test]
fn actions_are_extracted_once_with_labels() {
    let binds = vec![
        kb(Some("mute"), Some("Mute all"), &["KeyM"]),
        kb(Some("mute"), Some("Other"), &["KeyN"]),
        kb(Some(""), Some("Empty"), &["KeyE"]),
        kb(None, Some("None"), &["KeyX"]),
        kb(Some("skip"), Some("   "), &["KeyS"]),
        kb(Some("pause"), None, &["KeyP"]),
    ];
    let actions = KeybindsManager::extract_actions(&binds);
    let pairs: Vec<(String, String)> = actions.iter().map(|d| (d.action.clone(), d.label.clone())).collect();
    assert_eq!(
        pairs,
        vec![
            ("mute".to_string(), "Mute all".to_string()),
            ("skip".to_string(), "skip".to_string()),
            ("pause".to_string(), "pause".to_string()),
        ]
    );
}

#[test]
fn portal_manager_runs_only_where_offered() {
    let cfg = config(vec![kb(Some("mute"), None, &["KeyM"])]);
    let (mut on, initial) = KeybindsManager::new(&cfg, "Hyprland");
    assert_eq!(initial.map(|v| v.len()), Some(1));
    assert!(matches!(on.set_keybinds(&[], "Hyprland"), Some(PortalCommand::Update(v)) if v.is_empty()));
    assert!(on.set_keybinds(&[], "GNOME").is_none());
    assert!(matches!(on.cleanup(), Some(PortalCommand::Shutdown)));
    assert!(on.cleanup().is_none());
    assert!(on.set_keybinds(&[], "Hyprland").is_none());

    let (mut off, none) = KeybindsManager::new(&cfg, "GNOME");
    assert!(none.is_none());
    assert!(off.set_keybinds(&[], "Hyprland").is_none());
    assert!(off.cleanup().is_none());
}

#[test]
fn portal_state_binds_and_presses() {
    let mut state = PortalState::new(vec![def("toggle-mute", "Mute")]);
    assert!(state.session_bound());
    let shortcuts = state.shortcuts_to_bind();
    assert_eq!(shortcuts, vec![("toggle_mute".to_string(), "Mute".to_string())]);
    state.on_bound();
    assert!(matches!(state.on_activated("toggle_mute"), Activation::Pressed(a) if a == "toggle-mute"));
    assert!(matches!(state.on_activated("nothing"), Activation::Unknown));
}

#[test]
fn identical_update_changes_nothing() {
    let mut state = PortalState::new(vec![def("a", "A")]);
    state.on_bound();
    assert_eq!(state.on_update(vec![def("a", "A")]), UpdatePlan::Unchanged);
    assert!(matches!(state.on_activated("a"), Activation::Pressed(_)));
}

#[test]
fn new_update_rebinds_a_bound_session() {
    let mut state = PortalState::new(vec![def("a", "A")]);
    state.on_bound();
    assert_eq!(state.on_update(vec![def("b", "B")]), UpdatePlan::Apply { close_session: true, bind: true });
    assert!(matches!(state.on_activated("a"), Activation::Unknown));
    state.on_bound();
    assert!(matches!(state.on_activated("b"), Activation::Pressed(x) if x == "b"));
    assert_eq!(state.on_update(vec![]), UpdatePlan::Apply { close_session: true, bind: false });
    assert!(!state.session_bound());
}

#[test]
fn first_update_of_an_empty_session_binds_without_closing() {
    let mut state = PortalState::new(vec![]);
    assert!(!state.session_bound());
    assert_eq!(state.on_update(vec![def("a", "A")]), UpdatePlan::Apply { close_session: false, bind: true });
    assert!(state.session_bound());
}

#[test]
fn windows_keybind_matches_when_all_held() {
    let binds = vec![
        kb(Some(""), None, &["KeyA"]),
        kb(Some("nothing"), None, &["NoSuchKey"]),
        kb(Some("copy"), None, &["ControlLeft", "KeyC"]),
        kb(Some("c-only"), None, &["KeyC"]),
    ];
    assert_eq!(check_keybind_match(&binds, &vec![0xA2, 0x43].into_iter().collect()), Some("copy".to_string()));
    assert_eq!(check_keybind_match(&binds, &vec![0x43].into_iter().collect()), Some("c-only".to_string()));
    assert_eq!(check_keybind_match(&binds, &vec![0x41].into_iter().collect()), None);
    assert_eq!(check_keybind_match(&binds, &vec![].into_iter().collect()), None);
}

#[test]
fn held_keys_follow_presses_and_releases() {
    let binds = vec![kb(Some("play"), None, &["MediaPlayPause"]), kb(Some("mute"), None, &["ControlLeft", "KeyM"])];
    let mut hooks = HookState::new();
    let out = hooks.key_down(0xA2, &binds);
    assert_eq!(out.action, None);
    assert!(!out.swallow);
    let out = hooks.key_down(0x4D, &binds);
    assert_eq!(out.action, Some("mute".to_string()));
    assert!(!out.swallow);
    hooks.key_up(0x4D);
    hooks.key_up(0xA2);
    assert_eq!(hooks.pressed_count(), 0);
    let out = hooks.key_down(0xB3, &binds);
    assert_eq!(out.action, Some("play".to_string()));
    assert!(out.swallow);
}

#[test]
fn a_media_key_without_keybind_passes() {
    let mut hooks = HookState::new();
    let out = hooks.key_down(0xB3, &[]);
    assert_eq!(out.action, None);
    assert!(!out.swallow);
}

#[test]
fn wheel_steps_are_momentary() {
    let binds = vec![kb(Some("louder"), None, &["ShiftLeft", "WheelUp"])];
    let mut hooks = HookState::new();
    hooks.key_down(0xA0, &binds);
    assert_eq!(hooks.wheel(false, 120 << 16, &binds), Some("louder".to_string()));
    assert_eq!(hooks.pressed_count(), 1);
    assert!(hooks.is_pressed(0xA0));
    assert_eq!(hooks.wheel(false, 0xFF88_0000, &binds), None);
}

#[test]
fn wheel_and_button_codes() {
    assert_eq!(wheel_vk(false, 120 << 16), 0x0100);
    assert_eq!(wheel_vk(false, 0xFF88_0000), 0x0101);
    assert_eq!(wheel_vk(true, 120 << 16), 0x0102);
    assert_eq!(wheel_vk(true, 0), 0x0103);
    assert_eq!(mouse_button_vk(MouseButton::Left, 0), Some(0x01));
    assert_eq!(mouse_button_vk(MouseButton::Right, 0), Some(0x02));
    assert_eq!(mouse_button_vk(MouseButton::Middle, 0), Some(0x04));
    assert_eq!(mouse_button_vk(MouseButton::X, 0x10000), Some(0x05));
    assert_eq!(mouse_button_vk(MouseButton::X, 0x20000), Some(0x06));
    assert_eq!(mouse_button_vk(MouseButton::X, 0x30000), None);
}

#[test]
fn mouse_buttons_trigger_on_press_only() {
    let binds = vec![kb(Some("back"), None, &["Mouse3"])];
    let mut hooks = HookState::new();
    assert_eq!(hooks.mouse_button(0x05, true, &binds), Some("back".to_string()));
    assert_eq!(hooks.mouse_button(0x05, false, &binds), None);
    assert_eq!(hooks.pressed_count(), 0);
}

#[test]
fn windows_keybinds_can_be_replaced() {
    let mut manager = WindowsKeybinds::new(config(vec![kb(Some("a"), None, &["KeyA"])]));
    assert_eq!(manager.keybinds().len(), 1);
    manager.set_keybinds(vec![]);
    assert!(manager.keybinds().is_empty());
}
