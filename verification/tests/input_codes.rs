use streamq_native::input_codes::{bind_to_xkb_trigger, parse_js_input, parse_u32, OsInput};

#[test]
fn parses_letter_keys_and_aliases() {
    assert_eq!(parse_js_input("KeyA"), Some(OsInput::Key(0x41, "a")));
    assert_eq!(parse_js_input("A"), Some(OsInput::Key(0x41, "a")));
    assert_eq!(parse_js_input("KeyZ"), Some(OsInput::Key(0x5A, "z")));
}

#[test]
fn parses_modifiers() {
    assert_eq!(parse_js_input("AltLeft"), Some(OsInput::Key(0xA4, "ALT")));
    assert_eq!(parse_js_input("Ctrl"), Some(OsInput::Key(0x11, "CTRL")));
    assert_eq!(parse_js_input("Super"), Some(OsInput::Key(0x5B, "LOGO")));
}

#[test]
fn parses_mouse_buttons_and_wheel() {
    assert_eq!(parse_js_input("Mouse0"), Some(OsInput::MouseBtn(0x01, "Button1")));
    assert_eq!(parse_js_input("Middle"), Some(OsInput::MouseBtn(0x04, "Button2")));
    assert_eq!(parse_js_input("Back"), Some(OsInput::MouseBtn(0x05, "Button8")));
    assert_eq!(parse_js_input("Forward"), Some(OsInput::MouseBtn(0x06, "Button9")));
    assert_eq!(parse_js_input("WheelUp"), Some(OsInput::Scroll { amount: 1, is_horizontal: false }));
    assert_eq!(parse_js_input("WheelLeft"), Some(OsInput::Scroll { amount: -1, is_horizontal: true }));
}

#[test]
fn parses_media_and_punctuation_keys() {
    assert_eq!(parse_js_input("MediaPlayPause"), Some(OsInput::Key(0xB3, "XF86AudioPlay")));
    assert_eq!(parse_js_input("MediaNext"), Some(OsInput::Key(0xB0, "XF86AudioNext")));
    assert_eq!(parse_js_input("Quote"), Some(OsInput::Key(0xDE, "apostrophe")));
    assert_eq!(parse_js_input("F12"), Some(OsInput::Key(0x7B, "F12")));
    assert_eq!(parse_js_input("Digit7"), Some(OsInput::Key(0x37, "7")));
    assert_eq!(parse_js_input("ArrowUp"), Some(OsInput::Key(0x26, "Up")));
}

#[test]
fn parses_os_specific_virtual_keys() {
    assert_eq!(parse_js_input("VK_255"), Some(OsInput::OsSpecificKey(255)));
    assert_eq!(parse_js_input("VK_65535"), Some(OsInput::OsSpecificKey(65535)));
    assert_eq!(parse_js_input("VK_65536"), None);
    assert_eq!(parse_js_input("VK_"), None);
    assert_eq!(parse_js_input("VK_12a"), None);
}

#[test]
fn rejects_unknown_codes() {
    assert_eq!(parse_js_input("NoSuchKey"), None);
    assert_eq!(parse_js_input(""), None);
    assert_eq!(parse_js_input("keya"), None);
}

#[test]
fn virtual_key_of_each_input() {
    assert_eq!(OsInput::Key(0x41, "a").to_vk(), Some(0x41));
    assert_eq!(OsInput::OsSpecificKey(7).to_vk(), Some(7));
    assert_eq!(OsInput::Scroll { amount: 1, is_horizontal: false }.to_vk(), Some(0x0100));
    assert_eq!(OsInput::Scroll { amount: -1, is_horizontal: false }.to_vk(), Some(0x0101));
    assert_eq!(OsInput::Scroll { amount: 1, is_horizontal: true }.to_vk(), Some(0x0102));
    assert_eq!(OsInput::Scroll { amount: -1, is_horizontal: true }.to_vk(), Some(0x0103));
}

#[test]
fn xkb_name_of_each_input() {
    assert_eq!(OsInput::Key(0x41, "a").to_xkb(), Some("a"));
    assert_eq!(OsInput::OsSpecificKey(7).to_xkb(), None);
    assert_eq!(OsInput::MouseBtn(0x01, "Button1").to_xkb(), Some("Button1"));
    assert_eq!(OsInput::Scroll { amount: 1, is_horizontal: false }.to_xkb(), Some("Button4"));
    assert_eq!(OsInput::Scroll { amount: 0, is_horizontal: false }.to_xkb(), Some("Button5"));
    assert_eq!(OsInput::Scroll { amount: 3, is_horizontal: true }.to_xkb(), Some("Button6"));
    assert_eq!(OsInput::Scroll { amount: -3, is_horizontal: true }.to_xkb(), Some("Button7"));
}

#[test]
fn mouse_inputs_are_mouse() {
    assert!(OsInput::MouseBtn(0x01, "Button1").is_mouse());
    assert!(OsInput::Scroll { amount: 1, is_horizontal: false }.is_mouse());
    assert!(!OsInput::Key(0x41, "a").is_mouse());
    assert!(!OsInput::OsSpecificKey(1).is_mouse());
}

#[test]
fn xkb_trigger_joins_named_inputs() {
    let bind = vec![OsInput::Key(0xA2, "CTRL"), OsInput::OsSpecificKey(9), OsInput::Key(0x41, "a")];
    assert_eq!(bind_to_xkb_trigger(&bind), Some("CTRL+a".to_string()));
    assert_eq!(bind_to_xkb_trigger(&[]), None);
    assert_eq!(bind_to_xkb_trigger(&[OsInput::OsSpecificKey(9)]), None);
}

#[test]
fn parse_u32_reads_decimal_text() {
    assert_eq!(parse_u32("0"), Some(0));
    assert_eq!(parse_u32("4294967295"), Some(4294967295));
    assert_eq!(parse_u32("4294967296"), None);
    assert_eq!(parse_u32(""), None);
    assert_eq!(parse_u32("-1"), None);
    assert_eq!(parse_u32("+7"), Some(7));
}

#[test]
fn white_space_is_the_unicode_property() {
    for code in 0u32..=0x10FFFF {
        if let Some(c) = char::from_u32(code) {
            assert_eq!(streamq_native::text::is_white_space(c), c.is_whitespace(), "U+{:04X}", code);
        }
    }
}
