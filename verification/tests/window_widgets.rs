use streamq_native::error::NativeError;
use streamq_native::event_emitter::{event_kind, js_name, EventKind};
use streamq_native::models::widgets::WidgetBounds;
use streamq_native::platforms::linux::widgets::{widget_center, WidgetsManager, FIRST_WIDGET_ID};
use streamq_native::platforms::linux::window::parse_decorations;
use streamq_native::platforms::windows::widgets::WidgetsManager as WindowsWidgets;
use streamq_native::platforms::windows::window::{
    accent_policy, check_hwnd, has_native_frame, is_at_least_build, is_pip_window, style_read_failed, topmost_style,
    with_native_frame, ROUNDED_CORNERS_BUILD,
};
use streamq_native::config::Config;
use streamq_native::StreamQNative;

#[test]
fn null_window_handles_are_refused() {
    assert!(matches!(check_hwnd(0), Err(NativeError::InvalidWindowHandle)));
    assert!(check_hwnd(0x1234).is_ok());
}

#[test]
fn acrylic_accent_policy() {
    let on = accent_policy(true, Some((0x11, 0x22, 0x33, 0)));
    assert_eq!(on.accent_state, 4);
    assert_eq!(on.accent_flags, 0);
    assert_eq!(on.gradient_color, 0x0133_2211);
    assert_eq!(on.animation_id, 0);
    let off = accent_policy(false, None);
    assert_eq!(off.accent_state, 0);
    assert_eq!(off.accent_flags, 2);
    assert_eq!(off.gradient_color, 0);
    let tinted = accent_policy(true, Some((1, 2, 3, 0x80)));
    assert_eq!(tinted.gradient_color, 0x8003_0201);
}

#[test]
fn native_frame_bits() {
    let s = with_native_frame(0x1000_0000);
    assert_eq!(s, 0x10C4_0000);
    assert!(has_native_frame(s));
    assert!(!has_native_frame(0x0004_0000));
    assert!(is_at_least_build(22631, ROUNDED_CORNERS_BUILD));
    assert!(!is_at_least_build(19045, ROUNDED_CORNERS_BUILD));
}

#[test]
fn pip_window_and_topmost() {
    assert!(is_pip_window(true, true, 0x0200_0000, "Picture in picture"));
    assert!(!is_pip_window(true, true, 0x0200_0000, "StreamQ"));
    assert!(!is_pip_window(true, false, 0x0200_0000, "x"));
    assert!(!is_pip_window(false, true, 0x0200_0000, "x"));
    assert!(!is_pip_window(true, true, 0, "x"));
    assert_eq!(topmost_style(0x100, true), Some(0x108));
    assert_eq!(topmost_style(0x108, true), None);
    assert_eq!(topmost_style(0x100, false), None);
    assert_eq!(topmost_style(0x108, false), Some(!0x8 | 0x108));
    assert!(style_read_failed(0, 5).is_err());
    assert!(style_read_failed(0, 0).is_ok());
    assert!(style_read_failed(3, 5).is_ok());
}

#[test]
fn decoration_layouts() {
    assert_eq!(
        parse_decorations("close,minimize:maximize"),
        Some(vec!["close".to_string(), "minimize".to_string(), "maximize".to_string()])
    );
    assert_eq!(parse_decorations(":close"), Some(vec!["close".to_string()]));
    assert_eq!(parse_decorations("icon,,menu:"), Some(vec!["icon".to_string(), "menu".to_string()]));
    assert_eq!(parse_decorations(":"), None);
    assert_eq!(parse_decorations(""), None);
}

#[test]
fn widget_ids_count_up_and_go_away() {
    let mut w = WidgetsManager::new();
    assert!(w.can_create());
    assert_eq!(w.next_id(), FIRST_WIDGET_ID);
    let a = w.register();
    let b = w.register();
    assert_eq!(a, 1 << 30);
    assert_eq!(b, a + 1);
    assert!(w.destroy(a));
    assert!(!w.destroy(a));
    assert!(w.destroy(b));
    let c = w.register();
    assert_eq!(c, b + 1);
    w.destroy_all();
    assert!(!w.destroy(c));
}

#[test]
fn widget_centre_saturates() {
    let b = WidgetBounds { x: 100, y: -50, width: 201, height: 100 };
    assert_eq!(widget_center(&b), (200, 0));
    let far = WidgetBounds { x: i32::MAX - 1, y: 0, width: u32::MAX, height: 0 };
    assert_eq!(widget_center(&far), (i32::MAX, 0));
}

#[test]
fn windows_has_no_overlay_widgets() {
    let w = WindowsWidgets::new();
    let bounds = WidgetBounds { x: 0, y: 0, width: 10, height: 10 };
    assert!(matches!(w.create_overlay("https://example.com".to_string(), bounds), Err(NativeError::OperationFailed(m)) if m == "Native overlay widgets are only supported on Linux"));
    assert!(w.destroy(3).is_ok());
    assert!(w.destroy_all().is_ok());
}

#[test]
fn event_names_round_trip() {
    let kinds = [
        EventKind::KeyDown,
        EventKind::KeyUp,
        EventKind::MouseDown,
        EventKind::MouseUp,
        EventKind::KeybindPressed,
        EventKind::MediaAction,
        EventKind::MediaSessionsChanged,
        EventKind::SourcesChanged,
        EventKind::AppAudioSourceChanged,
    ];
    for k in kinds {
        assert_eq!(event_kind(js_name(k)), Some(k));
    }
    assert_eq!(js_name(EventKind::MediaSessionsChanged), "mediaSessionsChanged");
    assert_eq!(event_kind("unknown"), None);
    assert_eq!(event_kind("KeyDown"), None);
}

#[test]
fn native_module_log_filter_and_logger() {
    let mut native = StreamQNative::new(Config { debug: true, keybinds: vec![], extract_thumbnails: Some(false) });
    assert_eq!(native.log_filter(), "streamq_native=DEBUG");
    assert!(native.attach_logger().is_ok());
    assert_eq!(native.attach_logger(), Err("Logger already attached".to_string()));
    assert_eq!(native.on("keybindPressed"), Some(EventKind::KeybindPressed));
    assert_eq!(native.on("nope"), None);
    let quiet = StreamQNative::new(Config { debug: false, keybinds: vec![], extract_thumbnails: None });
    assert_eq!(quiet.log_filter(), "streamq_native=INFO");
    assert!(!quiet.config().debug);
}
