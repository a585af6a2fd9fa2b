//! The key, mouse-button and wheel codes that keybinds are written in, and what
//! each of them is on the operating system side (a virtual-key code on Windows,
//! an XKB key or button name on Linux).
use vstd::prelude::*;
use crate::text::{str_eq, to_chars, push_str, ascii_lower};

verus! {

/// One input that a keybind can hold.
#[derive(Debug, Clone, Copy, PartialEq, Eq)]
pub enum OsInput {
    /// A keyboard key: its Windows virtual-key code and its XKB name.
    Key(u16, &'static str),
    /// A key given directly by its virtual-key code (`VK_<number>`); it has no XKB name.
    OsSpecificKey(u16),
    /// A mouse button: its virtual-key code and its XKB button name.
    MouseBtn(u16, &'static str),
    /// One step of the wheel; the sign of `amount` gives the direction.
    Scroll { amount: i32, is_horizontal: bool },
}

impl OsInput {
    /// The virtual-key code of an input. Wheel steps have the synthetic codes
    /// 0x100 (up), 0x101 (down), 0x102 (right) and 0x103 (left).
    pub open spec fn spec_vk(self) -> u16 {
        match self {
            OsInput::Key(vk, _) => vk,
            OsInput::OsSpecificKey(vk) => vk,
            OsInput::MouseBtn(vk, _) => vk,
            OsInput::Scroll { amount, is_horizontal } => {
                if !is_horizontal {
                    if amount > 0 { 0x0100 } else { 0x0101 }
                } else {
                    if amount > 0 { 0x0102 } else { 0x0103 }
                }
            },
        }
    }

    /// The XKB name of an input, if it has one. Wheel steps are the buttons
    /// 4 (up), 5 (down), 6 (right) and 7 (left).
    pub open spec fn spec_xkb(self) -> Option<&'static str> {
        match self {
            OsInput::Key(_, name) => Some(name),
            OsInput::OsSpecificKey(_) => None,
            OsInput::MouseBtn(_, name) => Some(name),
            OsInput::Scroll { amount, is_horizontal } => {
                if !is_horizontal {
                    if amount > 0 { Some("Button4") } else { Some("Button5") }
                } else {
                    if amount > 0 { Some("Button6") } else { Some("Button7") }
                }
            },
        }
    }

    pub fn to_vk(&self) -> (r: Option<u16>)
        ensures
            r == Some(self.spec_vk()),
    {
        match self {
            OsInput::Key(vk, _) => Some(*vk),
            OsInput::OsSpecificKey(vk) => Some(*vk),
            OsInput::MouseBtn(vk, _) => Some(*vk),
            OsInput::Scroll { amount, is_horizontal } => {
                if !*is_horizontal {
                    if *amount > 0 { Some(0x0100) } else { Some(0x0101) }
                } else {
                    if *amount > 0 { Some(0x0102) } else { Some(0x0103) }
                }
            },
        }
    }

    pub fn to_xkb(&self) -> (r: Option<&'static str>)
        ensures
            r == self.spec_xkb(),
    {
        match self {
            OsInput::Key(_, name) => Some(*name),
            OsInput::OsSpecificKey(_) => None,
            OsInput::MouseBtn(_, name) => Some(*name),
            OsInput::Scroll { amount, is_horizontal } => {
                if !*is_horizontal {
                    if *amount > 0 { Some("Button4") } else { Some("Button5") }
                } else {
                    if *amount > 0 { Some("Button6") } else { Some("Button7") }
                }
            },
        }
    }

    pub fn is_mouse(&self) -> (r: bool)
        ensures
            r == (self is MouseBtn || self is Scroll),
    {
        match self {
            OsInput::MouseBtn(..) => true,
            OsInput::Scroll { .. } => true,
            _ => false,
        }
    }
}

pub open spec fn is_decimal_digit(c: char) -> bool {
    '0' <= c && c <= '9'
}

/// The number written by a run of decimal digits.
pub open spec fn decimal_value(s: Seq<char>) -> nat
    decreases s.len(),
{
    if s.len() == 0 {
        0
    } else {
        decimal_value(s.drop_last()) * 10 + ((s.last() as int) - ('0' as int)) as nat
    }
}

/// What `u16::from_str` accepts: an optional `+`, then one or more decimal digits
/// whose value fits in 16 bits.
pub open spec fn spec_parse_u16(s: Seq<char>) -> Option<u16> {
    u16_of_digits(if s.len() > 0 && s[0] == '+' { s.skip(1) } else { s })
}

/// The value of one or more decimal digits, when it fits in 16 bits.
pub open spec fn u16_of_digits(digits: Seq<char>) -> Option<u16> {
    if digits.len() > 0 && (forall|i: int| 0 <= i < digits.len() ==> is_decimal_digit(#[trigger] digits[i]))
        && decimal_value(digits) <= 65535 {
        Some(decimal_value(digits) as u16)
    } else {
        None
    }
}

pub proof fn lemma_decimal_value_grows(s: Seq<char>, i: int, j: int)
    requires
        0 <= i <= j <= s.len(),
        forall|k: int| 0 <= k < s.len() ==> is_decimal_digit(#[trigger] s[k]),
    ensures
        decimal_value(s.take(i)) <= decimal_value(s.take(j)),
    decreases j - i,
{
    if i < j {
        lemma_decimal_value_grows(s, i, j - 1);
        assert(s.take(j).drop_last() =~= s.take(j - 1));
    }
}

/// The value of one or more decimal digits, when it fits in 32 bits.
pub open spec fn u32_of_digits(digits: Seq<char>) -> Option<u32> {
    if digits.len() > 0 && (forall|i: int| 0 <= i < digits.len() ==> is_decimal_digit(#[trigger] digits[i]))
        && decimal_value(digits) <= 0xFFFF_FFFF {
        Some(decimal_value(digits) as u32)
    } else {
        None
    }
}

/// What `u32::from_str` accepts: an optional `+`, then one or more decimal digits
/// whose value fits in 32 bits.
pub open spec fn spec_parse_u32(s: Seq<char>) -> Option<u32> {
    u32_of_digits(if s.len() > 0 && s[0] == '+' { s.skip(1) } else { s })
}

/// Parses a process id or index as `str::parse::<u32>` does.
pub fn parse_u32(text: &str) -> (r: Option<u32>)
    ensures
        r == spec_parse_u32(text@),
{
    let s = to_chars(text);
    let start: usize = if s.len() > 0 && s[0] == '+' { 1 } else { 0 };
    let ghost digits = s@.skip(start as int);
    proof {
        if s.len() > 0 && s@[0] == '+' {
            assert(digits =~= s@.skip(1));
        } else {
            assert(digits =~= s@);
        }
    }
    if start == s.len() {
        return None;
    }
    let mut value: u64 = 0;
    let mut i = start;
    while i < s.len()
        invariant
            start <= i <= s.len(),
            digits == s@.skip(start as int),
            spec_parse_u32(text@) == u32_of_digits(digits),
            forall|k: int| 0 <= k < i - start ==> is_decimal_digit(#[trigger] digits[k]),
            value == decimal_value(digits.take(i - start)),
            value <= 0xFFFF_FFFF,
        decreases s.len() - i,
    {
        let c = s[i];
        assert(digits[i - start] == s@[i as int]);
        if !(c >= '0' && c <= '9') {
            assert(!is_decimal_digit(digits[i - start]));
            return None;
        }
        proof {
            assert(digits.take(i - start + 1).drop_last() =~= digits.take(i - start));
        }
        let d: u64 = (c as u64) - ('0' as u64);
        value = value * 10 + d;
        if value > 0xFFFF_FFFF {
            proof {
                if forall|k: int| 0 <= k < digits.len() ==> is_decimal_digit(#[trigger] digits[k]) {
                    lemma_decimal_value_grows(digits, i - start + 1, digits.len() as int);
                    assert(digits.take(digits.len() as int) =~= digits);
                }
            }
            return None;
        }
        i += 1;
    }
    proof {
        assert(digits.take(digits.len() as int) =~= digits);
    }
    Some(value as u32)
}

/// Parses the digits of `s` from index `start` as a 16-bit decimal number.
fn parse_u16_from(s: &Vec<char>, start: usize) -> (r: Option<u16>)
    requires
        start <= s.len(),
    ensures
        r == u16_of_digits(s@.skip(start as int)),
{
    let ghost digits = s@.skip(start as int);
    if start == s.len() {
        return None;
    }
    let mut value: u32 = 0;
    let mut i = start;
    while i < s.len()
        invariant
            start <= i <= s.len(),
            digits == s@.skip(start as int),
            forall|k: int| 0 <= k < i - start ==> is_decimal_digit(#[trigger] digits[k]),
            value == decimal_value(digits.take(i - start)),
            value <= 65535,
        decreases s.len() - i,
    {
        let c = s[i];
        assert(digits[i - start] == s@[i as int]);
        if !(c >= '0' && c <= '9') {
            assert(!is_decimal_digit(digits[i - start]));
            return None;
        }
        proof {
            assert(digits.take(i - start + 1).drop_last() =~= digits.take(i - start));
        }
        let d: u32 = (c as u32) - ('0' as u32);
        value = value * 10 + d;
        if value > 65535 {
            proof {
                if forall|k: int| 0 <= k < digits.len() ==> is_decimal_digit(#[trigger] digits[k]) {
                    lemma_decimal_value_grows(digits, i - start + 1, digits.len() as int);
                    assert(digits.take(digits.len() as int) =~= digits);
                }
            }
            return None;
        }
        i += 1;
    }
    proof {
        assert(digits.take(digits.len() as int) =~= digits);
    }
    Some(value as u16)
}

pub open spec fn js_mouse(code: Seq<char>) -> Option<OsInput> {
    if code == "Mouse0"@ {
        Some(OsInput::MouseBtn(0x01, "Button1"))
    } else if code == "Mouse1"@ || code == "Middle"@ {
        Some(OsInput::MouseBtn(0x04, "Button2"))
    } else if code == "Mouse2"@ {
        Some(OsInput::MouseBtn(0x02, "Button3"))
    } else if code == "Mouse3"@ || code == "X1"@ || code == "Back"@ {
        Some(OsInput::MouseBtn(0x05, "Button8"))
    } else if code == "Mouse4"@ || code == "X2"@ || code == "Forward"@ {
        Some(OsInput::MouseBtn(0x06, "Button9"))
    } else {
        None
    }
}

pub open spec fn js_wheel(code: Seq<char>) -> Option<OsInput> {
    if code == "WheelUp"@ {
        Some(OsInput::Scroll { amount: 1, is_horizontal: false, })
    } else if code == "WheelDown"@ {
        Some(OsInput::Scroll { amount: -1i32, is_horizontal: false, })
    } else if code == "WheelLeft"@ {
        Some(OsInput::Scroll { amount: -1i32, is_horizontal: true, })
    } else if code == "WheelRight"@ {
        Some(OsInput::Scroll { amount: 1, is_horizontal: true, })
    } else {
        None
    }
}

pub open spec fn js_modifiers(code: Seq<char>) -> Option<OsInput> {
    if code == "ShiftLeft"@ {
        Some(OsInput::Key(0xA0, "SHIFT"))
    } else if code == "ShiftRight"@ {
        Some(OsInput::Key(0xA1, "SHIFT"))
    } else if code == "Shift"@ {
        Some(OsInput::Key(0x10, "SHIFT"))
    } else if code == "ControlLeft"@ {
        Some(OsInput::Key(0xA2, "CTRL"))
    } else if code == "ControlRight"@ {
        Some(OsInput::Key(0xA3, "CTRL"))
    } else if code == "Control"@ || code == "Ctrl"@ {
        Some(OsInput::Key(0x11, "CTRL"))
    } else if code == "AltLeft"@ {
        Some(OsInput::Key(0xA4, "ALT"))
    } else if code == "AltRight"@ {
        Some(OsInput::Key(0xA5, "ALT"))
    } else if code == "Alt"@ {
        Some(OsInput::Key(0x12, "ALT"))
    } else if code == "MetaLeft"@ || code == "OSLeft"@ {
        Some(OsInput::Key(0x5B, "LOGO"))
    } else if code == "MetaRight"@ || code == "OSRight"@ {
        Some(OsInput::Key(0x5C, "LOGO"))
    } else if code == "Meta"@ || code == "OS"@ || code == "Win"@ || code == "Super"@ {
        Some(OsInput::Key(0x5B, "LOGO"))
    } else {
        None
    }
}

pub open spec fn js_letters(code: Seq<char>) -> Option<OsInput> {
    if code == "KeyA"@ || code == "A"@ {
        Some(OsInput::Key(0x41, "a"))
    } else if code == "KeyB"@ || code == "B"@ {
        Some(OsInput::Key(0x42, "b"))
    } else if code == "KeyC"@ || code == "C"@ {
        Some(OsInput::Key(0x43, "c"))
    } else if code == "KeyD"@ || code == "D"@ {
        Some(OsInput::Key(0x44, "d"))
    } else if code == "KeyE"@ || code == "E"@ {
        Some(OsInput::Key(0x45, "e"))
    } else if code == "KeyF"@ || code == "F"@ {
        Some(OsInput::Key(0x46, "f"))
    } else if code == "KeyG"@ || code == "G"@ {
        Some(OsInput::Key(0x47, "g"))
    } else if code == "KeyH"@ || code == "H"@ {
        Some(OsInput::Key(0x48, "h"))
    } else if code == "KeyI"@ || code == "I"@ {
        Some(OsInput::Key(0x49, "i"))
    } else if code == "KeyJ"@ || code == "J"@ {
        Some(OsInput::Key(0x4A, "j"))
    } else if code == "KeyK"@ || code == "K"@ {
        Some(OsInput::Key(0x4B, "k"))
    } else if code == "KeyL"@ || code == "L"@ {
        Some(OsInput::Key(0x4C, "l"))
    } else if code == "KeyM"@ || code == "M"@ {
        Some(OsInput::Key(0x4D, "m"))
    } else if code == "KeyN"@ || code == "N"@ {
        Some(OsInput::Key(0x4E, "n"))
    } else if code == "KeyO"@ || code == "O"@ {
        Some(OsInput::Key(0x4F, "o"))
    } else if code == "KeyP"@ || code == "P"@ {
        Some(OsInput::Key(0x50, "p"))
    } else if code == "KeyQ"@ || code == "Q"@ {
        Some(OsInput::Key(0x51, "q"))
    } else if code == "KeyR"@ || code == "R"@ {
        Some(OsInput::Key(0x52, "r"))
    } else if code == "KeyS"@ || code == "S"@ {
        Some(OsInput::Key(0x53, "s"))
    } else if code == "KeyT"@ || code == "T"@ {
        Some(OsInput::Key(0x54, "t"))
    } else if code == "KeyU"@ || code == "U"@ {
        Some(OsInput::Key(0x55, "u"))
    } else if code == "KeyV"@ || code == "V"@ {
        Some(OsInput::Key(0x56, "v"))
    } else if code == "KeyW"@ || code == "W"@ {
        Some(OsInput::Key(0x57, "w"))
    } else if code == "KeyX"@ || code == "X"@ {
        Some(OsInput::Key(0x58, "x"))
    } else if code == "KeyY"@ || code == "Y"@ {
        Some(OsInput::Key(0x59, "y"))
    } else if code == "KeyZ"@ || code == "Z"@ {
        Some(OsInput::Key(0x5A, "z"))
    } else {
        None
    }
}

pub open spec fn js_digits(code: Seq<char>) -> Option<OsInput> {
    if code == "Digit0"@ || code == "D0"@ {
        Some(OsInput::Key(0x30, "0"))
    } else if code == "Digit1"@ || code == "D1"@ {
        Some(OsInput::Key(0x31, "1"))
    } else if code == "Digit2"@ || code == "D2"@ {
        Some(OsInput::Key(0x32, "2"))
    } else if code == "Digit3"@ || code == "D3"@ {
        Some(OsInput::Key(0x33, "3"))
    } else if code == "Digit4"@ || code == "D4"@ {
        Some(OsInput::Key(0x34, "4"))
    } else if code == "Digit5"@ || code == "D5"@ {
        Some(OsInput::Key(0x35, "5"))
    } else if code == "Digit6"@ || code == "D6"@ {
        Some(OsInput::Key(0x36, "6"))
    } else if code == "Digit7"@ || code == "D7"@ {
        Some(OsInput::Key(0x37, "7"))
    } else if code == "Digit8"@ || code == "D8"@ {
        Some(OsInput::Key(0x38, "8"))
    } else if code == "Digit9"@ || code == "D9"@ {
        Some(OsInput::Key(0x39, "9"))
    } else {
        None
    }
}

pub open spec fn js_function_keys(code: Seq<char>) -> Option<OsInput> {
    if code == "F1"@ {
        Some(OsInput::Key(0x70, "F1"))
    } else if code == "F2"@ {
        Some(OsInput::Key(0x71, "F2"))
    } else if code == "F3"@ {
        Some(OsInput::Key(0x72, "F3"))
    } else if code == "F4"@ {
        Some(OsInput::Key(0x73, "F4"))
    } else if code == "F5"@ {
        Some(OsInput::Key(0x74, "F5"))
    } else if code == "F6"@ {
        Some(OsInput::Key(0x75, "F6"))
    } else if code == "F7"@ {
        Some(OsInput::Key(0x76, "F7"))
    } else if code == "F8"@ {
        Some(OsInput::Key(0x77, "F8"))
    } else if code == "F9"@ {
        Some(OsInput::Key(0x78, "F9"))
    } else if code == "F10"@ {
        Some(OsInput::Key(0x79, "F10"))
    } else if code == "F11"@ {
        Some(OsInput::Key(0x7A, "F11"))
    } else if code == "F12"@ {
        Some(OsInput::Key(0x7B, "F12"))
    } else if code == "F13"@ {
        Some(OsInput::Key(0x7C, "F13"))
    } else if code == "F14"@ {
        Some(OsInput::Key(0x7D, "F14"))
    } else if code == "F15"@ {
        Some(OsInput::Key(0x7E, "F15"))
    } else if code == "F16"@ {
        Some(OsInput::Key(0x7F, "F16"))
    } else if code == "F17"@ {
        Some(OsInput::Key(0x80, "F17"))
    } else if code == "F18"@ {
        Some(OsInput::Key(0x81, "F18"))
    } else if code == "F19"@ {
        Some(OsInput::Key(0x82, "F19"))
    } else if code == "F20"@ {
        Some(OsInput::Key(0x83, "F20"))
    } else if code == "F21"@ {
        Some(OsInput::Key(0x84, "F21"))
    } else if code == "F22"@ {
        Some(OsInput::Key(0x85, "F22"))
    } else if code == "F23"@ {
        Some(OsInput::Key(0x86, "F23"))
    } else if code == "F24"@ {
        Some(OsInput::Key(0x87, "F24"))
    } else {
        None
    }
}

pub open spec fn js_navigation(code: Seq<char>) -> Option<OsInput> {
    if code == "ArrowUp"@ || code == "Up"@ {
        Some(OsInput::Key(0x26, "Up"))
    } else if code == "ArrowDown"@ || code == "Down"@ {
        Some(OsInput::Key(0x28, "Down"))
    } else if code == "ArrowLeft"@ || code == "Left"@ {
        Some(OsInput::Key(0x25, "Left"))
    } else if code == "ArrowRight"@ || code == "Right"@ {
        Some(OsInput::Key(0x27, "Right"))
    } else if code == "Home"@ {
        Some(OsInput::Key(0x24, "Home"))
    } else if code == "End"@ {
        Some(OsInput::Key(0x23, "End"))
    } else if code == "PageUp"@ || code == "Prior"@ {
        Some(OsInput::Key(0x21, "Prior"))
    } else if code == "PageDown"@ || code == "Next"@ {
        Some(OsInput::Key(0x22, "Next"))
    } else if code == "Insert"@ {
        Some(OsInput::Key(0x2D, "Insert"))
    } else if code == "Delete"@ {
        Some(OsInput::Key(0x2E, "Delete"))
    } else {
        None
    }
}

pub open spec fn js_editing(code: Seq<char>) -> Option<OsInput> {
    if code == "Enter"@ || code == "Return"@ {
        Some(OsInput::Key(0x0D, "Return"))
    } else if code == "Backspace"@ {
        Some(OsInput::Key(0x08, "BackSpace"))
    } else if code == "Tab"@ {
        Some(OsInput::Key(0x09, "Tab"))
    } else if code == "Escape"@ || code == "Esc"@ {
        Some(OsInput::Key(0x1B, "Escape"))
    } else if code == "Space"@ {
        Some(OsInput::Key(0x20, "space"))
    } else {
        None
    }
}

pub open spec fn js_locks(code: Seq<char>) -> Option<OsInput> {
    if code == "CapsLock"@ {
        Some(OsInput::Key(0x14, "Caps_Lock"))
    } else if code == "NumLock"@ {
        Some(OsInput::Key(0x90, "Num_Lock"))
    } else if code == "ScrollLock"@ {
        Some(OsInput::Key(0x91, "Scroll_Lock"))
    } else {
        None
    }
}

pub open spec fn js_numpad(code: Seq<char>) -> Option<OsInput> {
    if code == "Numpad0"@ || code == "Num0"@ {
        Some(OsInput::Key(0x60, "KP_0"))
    } else if code == "Numpad1"@ || code == "Num1"@ {
        Some(OsInput::Key(0x61, "KP_1"))
    } else if code == "Numpad2"@ || code == "Num2"@ {
        Some(OsInput::Key(0x62, "KP_2"))
    } else if code == "Numpad3"@ || code == "Num3"@ {
        Some(OsInput::Key(0x63, "KP_3"))
    } else if code == "Numpad4"@ || code == "Num4"@ {
        Some(OsInput::Key(0x64, "KP_4"))
    } else if code == "Numpad5"@ || code == "Num5"@ {
        Some(OsInput::Key(0x65, "KP_5"))
    } else if code == "Numpad6"@ || code == "Num6"@ {
        Some(OsInput::Key(0x66, "KP_6"))
    } else if code == "Numpad7"@ || code == "Num7"@ {
        Some(OsInput::Key(0x67, "KP_7"))
    } else if code == "Numpad8"@ || code == "Num8"@ {
        Some(OsInput::Key(0x68, "KP_8"))
    } else if code == "Numpad9"@ || code == "Num9"@ {
        Some(OsInput::Key(0x69, "KP_9"))
    } else if code == "NumpadMultiply"@ || code == "NumMultiply"@ {
        Some(OsInput::Key(0x6A, "KP_Multiply"))
    } else if code == "NumpadAdd"@ || code == "NumAdd"@ {
        Some(OsInput::Key(0x6B, "KP_Add"))
    } else if code == "NumpadSubtract"@ || code == "NumSubtract"@ {
        Some(OsInput::Key(0x6D, "KP_Subtract"))
    } else if code == "NumpadDecimal"@ || code == "NumDecimal"@ {
        Some(OsInput::Key(0x6E, "KP_Decimal"))
    } else if code == "NumpadDivide"@ || code == "NumDivide"@ {
        Some(OsInput::Key(0x6F, "KP_Divide"))
    } else if code == "NumpadEnter"@ || code == "NumEnter"@ {
        Some(OsInput::Key(0x0D, "KP_Enter"))
    } else if code == "NumpadSeparator"@ || code == "NumSeparator"@ {
        Some(OsInput::Key(0x6C, "KP_Separator"))
    } else {
        None
    }
}

pub open spec fn js_media(code: Seq<char>) -> Option<OsInput> {
    if code == "AudioVolumeMute"@ || code == "VolumeMute"@ {
        Some(OsInput::Key(0xAD, "XF86AudioMute"))
    } else if code == "AudioVolumeDown"@ || code == "VolumeDown"@ {
        Some(OsInput::Key(0xAE, "XF86AudioLowerVolume"))
    } else if code == "AudioVolumeUp"@ || code == "VolumeUp"@ {
        Some(OsInput::Key(0xAF, "XF86AudioRaiseVolume"))
    } else if code == "MediaPlayPause"@ {
        Some(OsInput::Key(0xB3, "XF86AudioPlay"))
    } else if code == "MediaStop"@ {
        Some(OsInput::Key(0xB2, "XF86AudioStop"))
    } else if code == "MediaTrackNext"@ || code == "MediaNext"@ {
        Some(OsInput::Key(0xB0, "XF86AudioNext"))
    } else if code == "MediaTrackPrevious"@ || code == "MediaPrevious"@ {
        Some(OsInput::Key(0xB1, "XF86AudioPrev"))
    } else if code == "MediaSelect"@ {
        Some(OsInput::Key(0xB5, "XF86AudioMedia"))
    } else if code == "LaunchMail"@ {
        Some(OsInput::Key(0xB4, "XF86Mail"))
    } else if code == "LaunchApp1"@ {
        Some(OsInput::Key(0xB6, "XF86Launch1"))
    } else if code == "LaunchApp2"@ {
        Some(OsInput::Key(0xB7, "XF86Launch2"))
    } else {
        None
    }
}

pub open spec fn js_browser(code: Seq<char>) -> Option<OsInput> {
    if code == "BrowserBack"@ {
        Some(OsInput::Key(0xA6, "XF86Back"))
    } else if code == "BrowserForward"@ {
        Some(OsInput::Key(0xA7, "XF86Forward"))
    } else if code == "BrowserRefresh"@ {
        Some(OsInput::Key(0xA8, "XF86Refresh"))
    } else if code == "BrowserStop"@ {
        Some(OsInput::Key(0xA9, "XF86Stop"))
    } else if code == "BrowserSearch"@ {
        Some(OsInput::Key(0xAA, "XF86Search"))
    } else if code == "BrowserFavorites"@ {
        Some(OsInput::Key(0xAB, "XF86Favorites"))
    } else if code == "BrowserHome"@ {
        Some(OsInput::Key(0xAC, "XF86HomePage"))
    } else {
        None
    }
}

pub open spec fn js_punctuation(code: Seq<char>) -> Option<OsInput> {
    if code == "Semicolon"@ {
        Some(OsInput::Key(0xBA, "semicolon"))
    } else if code == "Equal"@ {
        Some(OsInput::Key(0xBB, "equal"))
    } else if code == "Comma"@ {
        Some(OsInput::Key(0xBC, "comma"))
    } else if code == "Minus"@ {
        Some(OsInput::Key(0xBD, "minus"))
    } else if code == "Period"@ {
        Some(OsInput::Key(0xBE, "period"))
    } else if code == "Slash"@ {
        Some(OsInput::Key(0xBF, "slash"))
    } else if code == "Backquote"@ || code == "Grave"@ {
        Some(OsInput::Key(0xC0, "grave"))
    } else if code == "BracketLeft"@ {
        Some(OsInput::Key(0xDB, "bracketleft"))
    } else if code == "Backslash"@ {
        Some(OsInput::Key(0xDC, "backslash"))
    } else if code == "BracketRight"@ {
        Some(OsInput::Key(0xDD, "bracketright"))
    } else if code == "Quote"@ {
        Some(OsInput::Key(0xDE, "apostrophe"))
    } else {
        None
    }
}

pub open spec fn js_system(code: Seq<char>) -> Option<OsInput> {
    if code == "Pause"@ || code == "Break"@ {
        Some(OsInput::Key(0x13, "Pause"))
    } else if code == "PrintScreen"@ || code == "Snapshot"@ {
        Some(OsInput::Key(0x2A, "Print"))
    } else if code == "ContextMenu"@ || code == "Apps"@ || code == "Menu"@ {
        Some(OsInput::Key(0x5D, "Menu"))
    } else if code == "Sleep"@ {
        Some(OsInput::Key(0x5F, "XF86Sleep"))
    } else if code == "WakeUp"@ {
        Some(OsInput::Key(0xE3, "XF86WakeUp"))
    } else {
        None
    }
}

pub open spec fn js_international(code: Seq<char>) -> Option<OsInput> {
    if code == "IntlBackslash"@ {
        Some(OsInput::Key(0xE2, "backslash"))
    } else if code == "IntlRo"@ {
        Some(OsInput::Key(0xE1, "ro"))
    } else if code == "IntlYen"@ {
        Some(OsInput::Key(0xE3, "yen"))
    } else {
        None
    }
}

pub open spec fn js_named_input(code: Seq<char>) -> Option<OsInput> {
    if js_mouse(code) is Some {
        js_mouse(code)
    } else if js_wheel(code) is Some {
        js_wheel(code)
    } else if js_modifiers(code) is Some {
        js_modifiers(code)
    } else if js_letters(code) is Some {
        js_letters(code)
    } else if js_digits(code) is Some {
        js_digits(code)
    } else if js_function_keys(code) is Some {
        js_function_keys(code)
    } else if js_navigation(code) is Some {
        js_navigation(code)
    } else if js_editing(code) is Some {
        js_editing(code)
    } else if js_locks(code) is Some {
        js_locks(code)
    } else if js_numpad(code) is Some {
        js_numpad(code)
    } else if js_media(code) is Some {
        js_media(code)
    } else if js_browser(code) is Some {
        js_browser(code)
    } else if js_punctuation(code) is Some {
        js_punctuation(code)
    } else if js_system(code) is Some {
        js_system(code)
    } else {
        js_international(code)
    }
}

fn parse_mouse(code: &str) -> (r: Option<OsInput>)
    ensures
        r == js_mouse(code@),
{
    if str_eq(code, "Mouse0") {
        return Some(OsInput::MouseBtn(0x01, "Button1"));
    }
    if str_eq(code, "Mouse1") || str_eq(code, "Middle") {
        return Some(OsInput::MouseBtn(0x04, "Button2"));
    }
    if str_eq(code, "Mouse2") {
        return Some(OsInput::MouseBtn(0x02, "Button3"));
    }
    if str_eq(code, "Mouse3") || str_eq(code, "X1") || str_eq(code, "Back") {
        return Some(OsInput::MouseBtn(0x05, "Button8"));
    }
    if str_eq(code, "Mouse4") || str_eq(code, "X2") || str_eq(code, "Forward") {
        return Some(OsInput::MouseBtn(0x06, "Button9"));
    }
    None
}

fn parse_wheel(code: &str) -> (r: Option<OsInput>)
    ensures
        r == js_wheel(code@),
{
    if str_eq(code, "WheelUp") {
        return Some(OsInput::Scroll { amount: 1, is_horizontal: false, });
    }
    if str_eq(code, "WheelDown") {
        return Some(OsInput::Scroll { amount: -1i32, is_horizontal: false, });
    }
    if str_eq(code, "WheelLeft") {
        return Some(OsInput::Scroll { amount: -1i32, is_horizontal: true, });
    }
    if str_eq(code, "WheelRight") {
        return Some(OsInput::Scroll { amount: 1, is_horizontal: true, });
    }
    None
}

fn parse_modifiers(code: &str) -> (r: Option<OsInput>)
    ensures
        r == js_modifiers(code@),
{
    if str_eq(code, "ShiftLeft") {
        return Some(OsInput::Key(0xA0, "SHIFT"));
    }
    if str_eq(code, "ShiftRight") {
        return Some(OsInput::Key(0xA1, "SHIFT"));
    }
    if str_eq(code, "Shift") {
        return Some(OsInput::Key(0x10, "SHIFT"));
    }
    if str_eq(code, "ControlLeft") {
        return Some(OsInput::Key(0xA2, "CTRL"));
    }
    if str_eq(code, "ControlRight") {
        return Some(OsInput::Key(0xA3, "CTRL"));
    }
    if str_eq(code, "Control") || str_eq(code, "Ctrl") {
        return Some(OsInput::Key(0x11, "CTRL"));
    }
    if str_eq(code, "AltLeft") {
        return Some(OsInput::Key(0xA4, "ALT"));
    }
    if str_eq(code, "AltRight") {
        return Some(OsInput::Key(0xA5, "ALT"));
    }
    if str_eq(code, "Alt") {
        return Some(OsInput::Key(0x12, "ALT"));
    }
    if str_eq(code, "MetaLeft") || str_eq(code, "OSLeft") {
        return Some(OsInput::Key(0x5B, "LOGO"));
    }
    if str_eq(code, "MetaRight") || str_eq(code, "OSRight") {
        return Some(OsInput::Key(0x5C, "LOGO"));
    }
    if str_eq(code, "Meta") || str_eq(code, "OS") || str_eq(code, "Win") || str_eq(code, "Super") {
        return Some(OsInput::Key(0x5B, "LOGO"));
    }
    None
}

fn parse_letters(code: &str) -> (r: Option<OsInput>)
    ensures
        r == js_letters(code@),
{
    if str_eq(code, "KeyA") || str_eq(code, "A") {
        return Some(OsInput::Key(0x41, "a"));
    }
    if str_eq(code, "KeyB") || str_eq(code, "B") {
        return Some(OsInput::Key(0x42, "b"));
    }
    if str_eq(code, "KeyC") || str_eq(code, "C") {
        return Some(OsInput::Key(0x43, "c"));
    }
    if str_eq(code, "KeyD") || str_eq(code, "D") {
        return Some(OsInput::Key(0x44, "d"));
    }
    if str_eq(code, "KeyE") || str_eq(code, "E") {
        return Some(OsInput::Key(0x45, "e"));
    }
    if str_eq(code, "KeyF") || str_eq(code, "F") {
        return Some(OsInput::Key(0x46, "f"));
    }
    if str_eq(code, "KeyG") || str_eq(code, "G") {
        return Some(OsInput::Key(0x47, "g"));
    }
    if str_eq(code, "KeyH") || str_eq(code, "H") {
        return Some(OsInput::Key(0x48, "h"));
    }
    if str_eq(code, "KeyI") || str_eq(code, "I") {
        return Some(OsInput::Key(0x49, "i"));
    }
    if str_eq(code, "KeyJ") || str_eq(code, "J") {
        return Some(OsInput::Key(0x4A, "j"));
    }
    if str_eq(code, "KeyK") || str_eq(code, "K") {
        return Some(OsInput::Key(0x4B, "k"));
    }
    if str_eq(code, "KeyL") || str_eq(code, "L") {
        return Some(OsInput::Key(0x4C, "l"));
    }
    if str_eq(code, "KeyM") || str_eq(code, "M") {
        return Some(OsInput::Key(0x4D, "m"));
    }
    if str_eq(code, "KeyN") || str_eq(code, "N") {
        return Some(OsInput::Key(0x4E, "n"));
    }
    if str_eq(code, "KeyO") || str_eq(code, "O") {
        return Some(OsInput::Key(0x4F, "o"));
    }
    if str_eq(code, "KeyP") || str_eq(code, "P") {
        return Some(OsInput::Key(0x50, "p"));
    }
    if str_eq(code, "KeyQ") || str_eq(code, "Q") {
        return Some(OsInput::Key(0x51, "q"));
    }
    if str_eq(code, "KeyR") || str_eq(code, "R") {
        return Some(OsInput::Key(0x52, "r"));
    }
    if str_eq(code, "KeyS") || str_eq(code, "S") {
        return Some(OsInput::Key(0x53, "s"));
    }
    if str_eq(code, "KeyT") || str_eq(code, "T") {
        return Some(OsInput::Key(0x54, "t"));
    }
    if str_eq(code, "KeyU") || str_eq(code, "U") {
        return Some(OsInput::Key(0x55, "u"));
    }
    if str_eq(code, "KeyV") || str_eq(code, "V") {
        return Some(OsInput::Key(0x56, "v"));
    }
    if str_eq(code, "KeyW") || str_eq(code, "W") {
        return Some(OsInput::Key(0x57, "w"));
    }
    if str_eq(code, "KeyX") || str_eq(code, "X") {
        return Some(OsInput::Key(0x58, "x"));
    }
    if str_eq(code, "KeyY") || str_eq(code, "Y") {
        return Some(OsInput::Key(0x59, "y"));
    }
    if str_eq(code, "KeyZ") || str_eq(code, "Z") {
        return Some(OsInput::Key(0x5A, "z"));
    }
    None
}

fn parse_digits(code: &str) -> (r: Option<OsInput>)
    ensures
        r == js_digits(code@),
{
    if str_eq(code, "Digit0") || str_eq(code, "D0") {
        return Some(OsInput::Key(0x30, "0"));
    }
    if str_eq(code, "Digit1") || str_eq(code, "D1") {
        return Some(OsInput::Key(0x31, "1"));
    }
    if str_eq(code, "Digit2") || str_eq(code, "D2") {
        return Some(OsInput::Key(0x32, "2"));
    }
    if str_eq(code, "Digit3") || str_eq(code, "D3") {
        return Some(OsInput::Key(0x33, "3"));
    }
    if str_eq(code, "Digit4") || str_eq(code, "D4") {
        return Some(OsInput::Key(0x34, "4"));
    }
    if str_eq(code, "Digit5") || str_eq(code, "D5") {
        return Some(OsInput::Key(0x35, "5"));
    }
    if str_eq(code, "Digit6") || str_eq(code, "D6") {
        return Some(OsInput::Key(0x36, "6"));
    }
    if str_eq(code, "Digit7") || str_eq(code, "D7") {
        return Some(OsInput::Key(0x37, "7"));
    }
    if str_eq(code, "Digit8") || str_eq(code, "D8") {
        return Some(OsInput::Key(0x38, "8"));
    }
    if str_eq(code, "Digit9") || str_eq(code, "D9") {
        return Some(OsInput::Key(0x39, "9"));
    }
    None
}

fn parse_function_keys(code: &str) -> (r: Option<OsInput>)
    ensures
        r == js_function_keys(code@),
{
    if str_eq(code, "F1") {
        return Some(OsInput::Key(0x70, "F1"));
    }
    if str_eq(code, "F2") {
        return Some(OsInput::Key(0x71, "F2"));
    }
    if str_eq(code, "F3") {
        return Some(OsInput::Key(0x72, "F3"));
    }
    if str_eq(code, "F4") {
        return Some(OsInput::Key(0x73, "F4"));
    }
    if str_eq(code, "F5") {
        return Some(OsInput::Key(0x74, "F5"));
    }
    if str_eq(code, "F6") {
        return Some(OsInput::Key(0x75, "F6"));
    }
    if str_eq(code, "F7") {
        return Some(OsInput::Key(0x76, "F7"));
    }
    if str_eq(code, "F8") {
        return Some(OsInput::Key(0x77, "F8"));
    }
    if str_eq(code, "F9") {
        return Some(OsInput::Key(0x78, "F9"));
    }
    if str_eq(code, "F10") {
        return Some(OsInput::Key(0x79, "F10"));
    }
    if str_eq(code, "F11") {
        return Some(OsInput::Key(0x7A, "F11"));
    }
    if str_eq(code, "F12") {
        return Some(OsInput::Key(0x7B, "F12"));
    }
    if str_eq(code, "F13") {
        return Some(OsInput::Key(0x7C, "F13"));
    }
    if str_eq(code, "F14") {
        return Some(OsInput::Key(0x7D, "F14"));
    }
    if str_eq(code, "F15") {
        return Some(OsInput::Key(0x7E, "F15"));
    }
    if str_eq(code, "F16") {
        return Some(OsInput::Key(0x7F, "F16"));
    }
    if str_eq(code, "F17") {
        return Some(OsInput::Key(0x80, "F17"));
    }
    if str_eq(code, "F18") {
        return Some(OsInput::Key(0x81, "F18"));
    }
    if str_eq(code, "F19") {
        return Some(OsInput::Key(0x82, "F19"));
    }
    if str_eq(code, "F20") {
        return Some(OsInput::Key(0x83, "F20"));
    }
    if str_eq(code, "F21") {
        return Some(OsInput::Key(0x84, "F21"));
    }
    if str_eq(code, "F22") {
        return Some(OsInput::Key(0x85, "F22"));
    }
    if str_eq(code, "F23") {
        return Some(OsInput::Key(0x86, "F23"));
    }
    if str_eq(code, "F24") {
        return Some(OsInput::Key(0x87, "F24"));
    }
    None
}

fn parse_navigation(code: &str) -> (r: Option<OsInput>)
    ensures
        r == js_navigation(code@),
{
    if str_eq(code, "ArrowUp") || str_eq(code, "Up") {
        return Some(OsInput::Key(0x26, "Up"));
    }
    if str_eq(code, "ArrowDown") || str_eq(code, "Down") {
        return Some(OsInput::Key(0x28, "Down"));
    }
    if str_eq(code, "ArrowLeft") || str_eq(code, "Left") {
        return Some(OsInput::Key(0x25, "Left"));
    }
    if str_eq(code, "ArrowRight") || str_eq(code, "Right") {
        return Some(OsInput::Key(0x27, "Right"));
    }
    if str_eq(code, "Home") {
        return Some(OsInput::Key(0x24, "Home"));
    }
    if str_eq(code, "End") {
        return Some(OsInput::Key(0x23, "End"));
    }
    if str_eq(code, "PageUp") || str_eq(code, "Prior") {
        return Some(OsInput::Key(0x21, "Prior"));
    }
    if str_eq(code, "PageDown") || str_eq(code, "Next") {
        return Some(OsInput::Key(0x22, "Next"));
    }
    if str_eq(code, "Insert") {
        return Some(OsInput::Key(0x2D, "Insert"));
    }
    if str_eq(code, "Delete") {
        return Some(OsInput::Key(0x2E, "Delete"));
    }
    None
}

fn parse_editing(code: &str) -> (r: Option<OsInput>)
    ensures
        r == js_editing(code@),
{
    if str_eq(code, "Enter") || str_eq(code, "Return") {
        return Some(OsInput::Key(0x0D, "Return"));
    }
    if str_eq(code, "Backspace") {
        return Some(OsInput::Key(0x08, "BackSpace"));
    }
    if str_eq(code, "Tab") {
        return Some(OsInput::Key(0x09, "Tab"));
    }
    if str_eq(code, "Escape") || str_eq(code, "Esc") {
        return Some(OsInput::Key(0x1B, "Escape"));
    }
    if str_eq(code, "Space") {
        return Some(OsInput::Key(0x20, "space"));
    }
    None
}

fn parse_locks(code: &str) -> (r: Option<OsInput>)
    ensures
        r == js_locks(code@),
{
    if str_eq(code, "CapsLock") {
        return Some(OsInput::Key(0x14, "Caps_Lock"));
    }
    if str_eq(code, "NumLock") {
        return Some(OsInput::Key(0x90, "Num_Lock"));
    }
    if str_eq(code, "ScrollLock") {
        return Some(OsInput::Key(0x91, "Scroll_Lock"));
    }
    None
}

fn parse_numpad(code: &str) -> (r: Option<OsInput>)
    ensures
        r == js_numpad(code@),
{
    if str_eq(code, "Numpad0") || str_eq(code, "Num0") {
        return Some(OsInput::Key(0x60, "KP_0"));
    }
    if str_eq(code, "Numpad1") || str_eq(code, "Num1") {
        return Some(OsInput::Key(0x61, "KP_1"));
    }
    if str_eq(code, "Numpad2") || str_eq(code, "Num2") {
        return Some(OsInput::Key(0x62, "KP_2"));
    }
    if str_eq(code, "Numpad3") || str_eq(code, "Num3") {
        return Some(OsInput::Key(0x63, "KP_3"));
    }
    if str_eq(code, "Numpad4") || str_eq(code, "Num4") {
        return Some(OsInput::Key(0x64, "KP_4"));
    }
    if str_eq(code, "Numpad5") || str_eq(code, "Num5") {
        return Some(OsInput::Key(0x65, "KP_5"));
    }
    if str_eq(code, "Numpad6") || str_eq(code, "Num6") {
        return Some(OsInput::Key(0x66, "KP_6"));
    }
    if str_eq(code, "Numpad7") || str_eq(code, "Num7") {
        return Some(OsInput::Key(0x67, "KP_7"));
    }
    if str_eq(code, "Numpad8") || str_eq(code, "Num8") {
        return Some(OsInput::Key(0x68, "KP_8"));
    }
    if str_eq(code, "Numpad9") || str_eq(code, "Num9") {
        return Some(OsInput::Key(0x69, "KP_9"));
    }
    if str_eq(code, "NumpadMultiply") || str_eq(code, "NumMultiply") {
        return Some(OsInput::Key(0x6A, "KP_Multiply"));
    }
    if str_eq(code, "NumpadAdd") || str_eq(code, "NumAdd") {
        return Some(OsInput::Key(0x6B, "KP_Add"));
    }
    if str_eq(code, "NumpadSubtract") || str_eq(code, "NumSubtract") {
        return Some(OsInput::Key(0x6D, "KP_Subtract"));
    }
    if str_eq(code, "NumpadDecimal") || str_eq(code, "NumDecimal") {
        return Some(OsInput::Key(0x6E, "KP_Decimal"));
    }
    if str_eq(code, "NumpadDivide") || str_eq(code, "NumDivide") {
        return Some(OsInput::Key(0x6F, "KP_Divide"));
    }
    if str_eq(code, "NumpadEnter") || str_eq(code, "NumEnter") {
        return Some(OsInput::Key(0x0D, "KP_Enter"));
    }
    if str_eq(code, "NumpadSeparator") || str_eq(code, "NumSeparator") {
        return Some(OsInput::Key(0x6C, "KP_Separator"));
    }
    None
}

fn parse_media(code: &str) -> (r: Option<OsInput>)
    ensures
        r == js_media(code@),
{
    if str_eq(code, "AudioVolumeMute") || str_eq(code, "VolumeMute") {
        return Some(OsInput::Key(0xAD, "XF86AudioMute"));
    }
    if str_eq(code, "AudioVolumeDown") || str_eq(code, "VolumeDown") {
        return Some(OsInput::Key(0xAE, "XF86AudioLowerVolume"));
    }
    if str_eq(code, "AudioVolumeUp") || str_eq(code, "VolumeUp") {
        return Some(OsInput::Key(0xAF, "XF86AudioRaiseVolume"));
    }
    if str_eq(code, "MediaPlayPause") {
        return Some(OsInput::Key(0xB3, "XF86AudioPlay"));
    }
    if str_eq(code, "MediaStop") {
        return Some(OsInput::Key(0xB2, "XF86AudioStop"));
    }
    if str_eq(code, "MediaTrackNext") || str_eq(code, "MediaNext") {
        return Some(OsInput::Key(0xB0, "XF86AudioNext"));
    }
    if str_eq(code, "MediaTrackPrevious") || str_eq(code, "MediaPrevious") {
        return Some(OsInput::Key(0xB1, "XF86AudioPrev"));
    }
    if str_eq(code, "MediaSelect") {
        return Some(OsInput::Key(0xB5, "XF86AudioMedia"));
    }
    if str_eq(code, "LaunchMail") {
        return Some(OsInput::Key(0xB4, "XF86Mail"));
    }
    if str_eq(code, "LaunchApp1") {
        return Some(OsInput::Key(0xB6, "XF86Launch1"));
    }
    if str_eq(code, "LaunchApp2") {
        return Some(OsInput::Key(0xB7, "XF86Launch2"));
    }
    None
}

fn parse_browser(code: &str) -> (r: Option<OsInput>)
    ensures
        r == js_browser(code@),
{
    if str_eq(code, "BrowserBack") {
        return Some(OsInput::Key(0xA6, "XF86Back"));
    }
    if str_eq(code, "BrowserForward") {
        return Some(OsInput::Key(0xA7, "XF86Forward"));
    }
    if str_eq(code, "BrowserRefresh") {
        return Some(OsInput::Key(0xA8, "XF86Refresh"));
    }
    if str_eq(code, "BrowserStop") {
        return Some(OsInput::Key(0xA9, "XF86Stop"));
    }
    if str_eq(code, "BrowserSearch") {
        return Some(OsInput::Key(0xAA, "XF86Search"));
    }
    if str_eq(code, "BrowserFavorites") {
        return Some(OsInput::Key(0xAB, "XF86Favorites"));
    }
    if str_eq(code, "BrowserHome") {
        return Some(OsInput::Key(0xAC, "XF86HomePage"));
    }
    None
}

fn parse_punctuation(code: &str) -> (r: Option<OsInput>)
    ensures
        r == js_punctuation(code@),
{
    if str_eq(code, "Semicolon") {
        return Some(OsInput::Key(0xBA, "semicolon"));
    }
    if str_eq(code, "Equal") {
        return Some(OsInput::Key(0xBB, "equal"));
    }
    if str_eq(code, "Comma") {
        return Some(OsInput::Key(0xBC, "comma"));
    }
    if str_eq(code, "Minus") {
        return Some(OsInput::Key(0xBD, "minus"));
    }
    if str_eq(code, "Period") {
        return Some(OsInput::Key(0xBE, "period"));
    }
    if str_eq(code, "Slash") {
        return Some(OsInput::Key(0xBF, "slash"));
    }
    if str_eq(code, "Backquote") || str_eq(code, "Grave") {
        return Some(OsInput::Key(0xC0, "grave"));
    }
    if str_eq(code, "BracketLeft") {
        return Some(OsInput::Key(0xDB, "bracketleft"));
    }
    if str_eq(code, "Backslash") {
        return Some(OsInput::Key(0xDC, "backslash"));
    }
    if str_eq(code, "BracketRight") {
        return Some(OsInput::Key(0xDD, "bracketright"));
    }
    if str_eq(code, "Quote") {
        return Some(OsInput::Key(0xDE, "apostrophe"));
    }
    None
}

fn parse_system(code: &str) -> (r: Option<OsInput>)
    ensures
        r == js_system(code@),
{
    if str_eq(code, "Pause") || str_eq(code, "Break") {
        return Some(OsInput::Key(0x13, "Pause"));
    }
    if str_eq(code, "PrintScreen") || str_eq(code, "Snapshot") {
        return Some(OsInput::Key(0x2A, "Print"));
    }
    if str_eq(code, "ContextMenu") || str_eq(code, "Apps") || str_eq(code, "Menu") {
        return Some(OsInput::Key(0x5D, "Menu"));
    }
    if str_eq(code, "Sleep") {
        return Some(OsInput::Key(0x5F, "XF86Sleep"));
    }
    if str_eq(code, "WakeUp") {
        return Some(OsInput::Key(0xE3, "XF86WakeUp"));
    }
    None
}

fn parse_international(code: &str) -> (r: Option<OsInput>)
    ensures
        r == js_international(code@),
{
    if str_eq(code, "IntlBackslash") {
        return Some(OsInput::Key(0xE2, "backslash"));
    }
    if str_eq(code, "IntlRo") {
        return Some(OsInput::Key(0xE1, "ro"));
    }
    if str_eq(code, "IntlYen") {
        return Some(OsInput::Key(0xE3, "yen"));
    }
    None
}

fn parse_named_input(code: &str) -> (r: Option<OsInput>)
    ensures
        r == js_named_input(code@),
{
    let r = parse_mouse(code);
    if r.is_some() {
        return r;
    }
    let r = parse_wheel(code);
    if r.is_some() {
        return r;
    }
    let r = parse_modifiers(code);
    if r.is_some() {
        return r;
    }
    let r = parse_letters(code);
    if r.is_some() {
        return r;
    }
    let r = parse_digits(code);
    if r.is_some() {
        return r;
    }
    let r = parse_function_keys(code);
    if r.is_some() {
        return r;
    }
    let r = parse_navigation(code);
    if r.is_some() {
        return r;
    }
    let r = parse_editing(code);
    if r.is_some() {
        return r;
    }
    let r = parse_locks(code);
    if r.is_some() {
        return r;
    }
    let r = parse_numpad(code);
    if r.is_some() {
        return r;
    }
    let r = parse_media(code);
    if r.is_some() {
        return r;
    }
    let r = parse_browser(code);
    if r.is_some() {
        return r;
    }
    let r = parse_punctuation(code);
    if r.is_some() {
        return r;
    }
    let r = parse_system(code);
    if r.is_some() {
        return r;
    }
    parse_international(code)
}

/// What `parse_js_input` gives for a code: `VK_<n>` names the virtual-key code
/// `n` directly; every other code is looked up in the table of named inputs.
pub open spec fn js_input(code: Seq<char>) -> Option<OsInput> {
    if code.len() >= 3 && code.subrange(0, 3) == "VK_"@ {
        match spec_parse_u16(code.skip(3)) {
            Some(vk) => Some(OsInput::OsSpecificKey(vk)),
            None => None,
        }
    } else {
        js_named_input(code)
    }
}

/// Parses a key, button or wheel code as the renderer writes it (`"KeyA"`,
/// `"ControlLeft"`, `"Mouse3"`, `"WheelUp"`, `"VK_173"`, ...).
pub fn parse_js_input(code: &str) -> (r: Option<OsInput>)
    ensures
        r == js_input(code@),
{
    let cs = to_chars(code);
    proof {
        reveal_strlit("VK_");
        assert("VK_"@.len() == 3);
        assert("VK_"@[0] == 'V' && "VK_"@[1] == 'K' && "VK_"@[2] == '_');
    }
    if cs.len() >= 3 && cs[0] == 'V' && cs[1] == 'K' && cs[2] == '_' {
        proof {
            assert(cs@.subrange(0, 3) =~= "VK_"@);
        }
        let digits_start: usize = if cs.len() > 3 && cs[3] == '+' { 4 } else { 3 };
        proof {
            if cs.len() > 3 {
                assert(cs@.skip(3).skip(1) =~= cs@.skip(4));
                assert(cs@.skip(3)[0] == cs@[3]);
            }
        }
        let parsed = parse_u16_from(&cs, digits_start);
        proof {
            let rest = cs@.skip(3);
            let digits = if rest.len() > 0 && rest[0] == '+' { rest.skip(1) } else { rest };
            assert(digits =~= cs@.skip(digits_start as int));
            assert(parsed == spec_parse_u16(rest));
        }
        return match parsed {
            Some(vk) => Some(OsInput::OsSpecificKey(vk)),
            None => None,
        };
    }
    proof {
        assert("VK_"@.len() == 3);
        assert("VK_"@[0] == 'V' && "VK_"@[1] == 'K' && "VK_"@[2] == '_');
        if code@.len() >= 3 && code@.subrange(0, 3) == "VK_"@ {
            assert(code@.subrange(0, 3)[0] == 'V');
            assert(code@.subrange(0, 3)[1] == 'K');
            assert(code@.subrange(0, 3)[2] == '_');
        }
    }
    parse_named_input(code)
}

/// The XKB names of the inputs that have one, in order.
pub open spec fn xkb_parts(bind: Seq<OsInput>) -> Seq<Seq<char>>
    decreases bind.len(),
{
    if bind.len() == 0 {
        Seq::empty()
    } else {
        let rest = xkb_parts(bind.drop_last());
        match bind.last().spec_xkb() {
            Some(name) => rest.push(name@),
            None => rest,
        }
    }
}

/// The parts joined with `sep` between neighbours.
pub open spec fn join(parts: Seq<Seq<char>>, sep: Seq<char>) -> Seq<char>
    decreases parts.len(),
{
    if parts.len() == 0 {
        Seq::empty()
    } else if parts.len() == 1 {
        parts[0]
    } else {
        join(parts.drop_last(), sep) + sep + parts.last()
    }
}

/// The trigger of a bind grows by one name per input that has one: adding such
/// an input to a bind whose trigger is not empty appends `+` and its XKB name;
/// to an empty one, the name alone; an input without an XKB name (a raw `VK_`
/// key) adds nothing.
pub proof fn lemma_trigger_appends(bind: Seq<OsInput>, x: OsInput)
    ensures
        x.spec_xkb() matches Some(n) ==> join(xkb_parts(bind.push(x)), "+"@) == (if xkb_parts(bind).len() == 0 {
            n@
        } else {
            join(xkb_parts(bind), "+"@) + "+"@ + n@
        }),
        x.spec_xkb() is None ==> xkb_parts(bind.push(x)) == xkb_parts(bind),
        xkb_parts(bind.push(x)).len() == xkb_parts(bind).len() + (if x.spec_xkb() is Some { 1int } else { 0int }),
{
    assert(bind.push(x).drop_last() =~= bind);
    if let Some(n) = x.spec_xkb() {
        let p = xkb_parts(bind).push(n@);
        assert(p.drop_last() =~= xkb_parts(bind));
        if xkb_parts(bind).len() == 0 {
            assert(p.len() == 1);
        }
    }
}

/// The XKB trigger description of a bind: the XKB names of its inputs joined
/// with `+`; `None` when no input of the bind has an XKB name.
pub fn bind_to_xkb_trigger(bind: &[OsInput]) -> (r: Option<String>)
    ensures
        xkb_parts(bind@).len() == 0 ==> r is None,
        xkb_parts(bind@).len() > 0 ==> r is Some && r.unwrap()@ == join(xkb_parts(bind@), "+"@),
        (bind@.len() == 1 && bind@[0].spec_xkb() is Some) ==> r is Some && r.unwrap()@ == bind@[0].spec_xkb().unwrap()@,
        (bind@.len() == 2 && bind@[0].spec_xkb() is Some && bind@[1].spec_xkb() is Some) ==> r is Some
            && r.unwrap()@ == bind@[0].spec_xkb().unwrap()@ + "+"@ + bind@[1].spec_xkb().unwrap()@,
{
    proof {
        if bind@.len() >= 1 {
            lemma_trigger_appends(Seq::empty(), bind@[0]);
            assert(Seq::<OsInput>::empty().push(bind@[0]) =~= bind@.take(1));
        }
        if bind@.len() == 2 {
            lemma_trigger_appends(bind@.take(1), bind@[1]);
            assert(bind@.take(1).push(bind@[1]) =~= bind@);
        }
        if bind@.len() == 1 {
            assert(bind@.take(1) =~= bind@);
        }
    }
    if bind.len() == 0 {
        return None;
    }
    let mut out = String::new();
    let mut count: usize = 0;
    let mut i: usize = 0;
    while i < bind.len()
        invariant
            i <= bind.len(),
            count == xkb_parts(bind@.take(i as int)).len(),
            count <= i,
            out@ == join(xkb_parts(bind@.take(i as int)), "+"@),
        decreases bind.len() - i,
    {
        proof {
            assert(bind@.take(i + 1).drop_last() =~= bind@.take(i as int));
        }
        match bind[i].to_xkb() {
            Some(name) => {
                if count > 0 {
                    push_str(&mut out, "+");
                }
                push_str(&mut out, name);
                proof {
                    let parts = xkb_parts(bind@.take(i + 1));
                    if count == 0 {
                        assert(out@ =~= name@);
                    } else {
                        assert(parts.drop_last() == xkb_parts(bind@.take(i as int)));
                    }
                }
                count += 1;
            },
            None => {},
        }
        i += 1;
    }
    proof {
        assert(bind@.take(bind.len() as int) =~= bind@);
    }
    if count == 0 {
        None
    } else {
        Some(out)
    }
}


/// The characters of the codes and names of the tables of named inputs.
pub open spec fn table_literals_known() -> bool {
    &&& "Mouse0"@.len() == 6 && "Mouse0"@[0] == 'M' && "Mouse0"@[1] == 'o' && "Mouse0"@[2] == 'u' && "Mouse0"@[3] == 's' && "Mouse0"@[4] == 'e' && "Mouse0"@[5] == '0'
    &&& "Button1"@.len() == 7 && "Button1"@[0] == 'B' && "Button1"@[1] == 'u' && "Button1"@[2] == 't' && "Button1"@[3] == 't' && "Button1"@[4] == 'o' && "Button1"@[5] == 'n' && "Button1"@[6] == '1'
    &&& "Mouse1"@.len() == 6 && "Mouse1"@[0] == 'M' && "Mouse1"@[1] == 'o' && "Mouse1"@[2] == 'u' && "Mouse1"@[3] == 's' && "Mouse1"@[4] == 'e' && "Mouse1"@[5] == '1'
    &&& "Middle"@.len() == 6 && "Middle"@[0] == 'M' && "Middle"@[1] == 'i' && "Middle"@[2] == 'd' && "Middle"@[3] == 'd' && "Middle"@[4] == 'l' && "Middle"@[5] == 'e'
    &&& "Button2"@.len() == 7 && "Button2"@[0] == 'B' && "Button2"@[1] == 'u' && "Button2"@[2] == 't' && "Button2"@[3] == 't' && "Button2"@[4] == 'o' && "Button2"@[5] == 'n' && "Button2"@[6] == '2'
    &&& "Mouse2"@.len() == 6 && "Mouse2"@[0] == 'M' && "Mouse2"@[1] == 'o' && "Mouse2"@[2] == 'u' && "Mouse2"@[3] == 's' && "Mouse2"@[4] == 'e' && "Mouse2"@[5] == '2'
    &&& "Button3"@.len() == 7 && "Button3"@[0] == 'B' && "Button3"@[1] == 'u' && "Button3"@[2] == 't' && "Button3"@[3] == 't' && "Button3"@[4] == 'o' && "Button3"@[5] == 'n' && "Button3"@[6] == '3'
    &&& "Mouse3"@.len() == 6 && "Mouse3"@[0] == 'M' && "Mouse3"@[1] == 'o' && "Mouse3"@[2] == 'u' && "Mouse3"@[3] == 's' && "Mouse3"@[4] == 'e' && "Mouse3"@[5] == '3'
    &&& "X1"@.len() == 2 && "X1"@[0] == 'X' && "X1"@[1] == '1'
    &&& "Back"@.len() == 4 && "Back"@[0] == 'B' && "Back"@[1] == 'a' && "Back"@[2] == 'c' && "Back"@[3] == 'k'
    &&& "Button8"@.len() == 7 && "Button8"@[0] == 'B' && "Button8"@[1] == 'u' && "Button8"@[2] == 't' && "Button8"@[3] == 't' && "Button8"@[4] == 'o' && "Button8"@[5] == 'n' && "Button8"@[6] == '8'
    &&& "Mouse4"@.len() == 6 && "Mouse4"@[0] == 'M' && "Mouse4"@[1] == 'o' && "Mouse4"@[2] == 'u' && "Mouse4"@[3] == 's' && "Mouse4"@[4] == 'e' && "Mouse4"@[5] == '4'
    &&& "X2"@.len() == 2 && "X2"@[0] == 'X' && "X2"@[1] == '2'
    &&& "Forward"@.len() == 7 && "Forward"@[0] == 'F' && "Forward"@[1] == 'o' && "Forward"@[2] == 'r' && "Forward"@[3] == 'w' && "Forward"@[4] == 'a' && "Forward"@[5] == 'r' && "Forward"@[6] == 'd'
    &&& "Button9"@.len() == 7 && "Button9"@[0] == 'B' && "Button9"@[1] == 'u' && "Button9"@[2] == 't' && "Button9"@[3] == 't' && "Button9"@[4] == 'o' && "Button9"@[5] == 'n' && "Button9"@[6] == '9'
    &&& "WheelUp"@.len() == 7 && "WheelUp"@[0] == 'W' && "WheelUp"@[1] == 'h' && "WheelUp"@[2] == 'e' && "WheelUp"@[3] == 'e' && "WheelUp"@[4] == 'l' && "WheelUp"@[5] == 'U' && "WheelUp"@[6] == 'p'
    &&& "WheelDown"@.len() == 9 && "WheelDown"@[0] == 'W' && "WheelDown"@[1] == 'h' && "WheelDown"@[2] == 'e' && "WheelDown"@[3] == 'e' && "WheelDown"@[4] == 'l' && "WheelDown"@[5] == 'D' && "WheelDown"@[6] == 'o' && "WheelDown"@[7] == 'w' && "WheelDown"@[8] == 'n'
    &&& "WheelLeft"@.len() == 9 && "WheelLeft"@[0] == 'W' && "WheelLeft"@[1] == 'h' && "WheelLeft"@[2] == 'e' && "WheelLeft"@[3] == 'e' && "WheelLeft"@[4] == 'l' && "WheelLeft"@[5] == 'L' && "WheelLeft"@[6] == 'e' && "WheelLeft"@[7] == 'f' && "WheelLeft"@[8] == 't'
    &&& "WheelRight"@.len() == 10 && "WheelRight"@[0] == 'W' && "WheelRight"@[1] == 'h' && "WheelRight"@[2] == 'e' && "WheelRight"@[3] == 'e' && "WheelRight"@[4] == 'l' && "WheelRight"@[5] == 'R' && "WheelRight"@[6] == 'i' && "WheelRight"@[7] == 'g' && "WheelRight"@[8] == 'h' && "WheelRight"@[9] == 't'
    &&& "ShiftLeft"@.len() == 9 && "ShiftLeft"@[0] == 'S' && "ShiftLeft"@[1] == 'h' && "ShiftLeft"@[2] == 'i' && "ShiftLeft"@[3] == 'f' && "ShiftLeft"@[4] == 't' && "ShiftLeft"@[5] == 'L' && "ShiftLeft"@[6] == 'e' && "ShiftLeft"@[7] == 'f' && "ShiftLeft"@[8] == 't'
    &&& "SHIFT"@.len() == 5 && "SHIFT"@[0] == 'S' && "SHIFT"@[1] == 'H' && "SHIFT"@[2] == 'I' && "SHIFT"@[3] == 'F' && "SHIFT"@[4] == 'T'
    &&& "ShiftRight"@.len() == 10 && "ShiftRight"@[0] == 'S' && "ShiftRight"@[1] == 'h' && "ShiftRight"@[2] == 'i' && "ShiftRight"@[3] == 'f' && "ShiftRight"@[4] == 't' && "ShiftRight"@[5] == 'R' && "ShiftRight"@[6] == 'i' && "ShiftRight"@[7] == 'g' && "ShiftRight"@[8] == 'h' && "ShiftRight"@[9] == 't'
    &&& "Shift"@.len() == 5 && "Shift"@[0] == 'S' && "Shift"@[1] == 'h' && "Shift"@[2] == 'i' && "Shift"@[3] == 'f' && "Shift"@[4] == 't'
    &&& "ControlLeft"@.len() == 11 && "ControlLeft"@[0] == 'C' && "ControlLeft"@[1] == 'o' && "ControlLeft"@[2] == 'n' && "ControlLeft"@[3] == 't' && "ControlLeft"@[4] == 'r' && "ControlLeft"@[5] == 'o' && "ControlLeft"@[6] == 'l' && "ControlLeft"@[7] == 'L' && "ControlLeft"@[8] == 'e' && "ControlLeft"@[9] == 'f' && "ControlLeft"@[10] == 't'
    &&& "CTRL"@.len() == 4 && "CTRL"@[0] == 'C' && "CTRL"@[1] == 'T' && "CTRL"@[2] == 'R' && "CTRL"@[3] == 'L'
    &&& "ControlRight"@.len() == 12 && "ControlRight"@[0] == 'C' && "ControlRight"@[1] == 'o' && "ControlRight"@[2] == 'n' && "ControlRight"@[3] == 't' && "ControlRight"@[4] == 'r' && "ControlRight"@[5] == 'o' && "ControlRight"@[6] == 'l' && "ControlRight"@[7] == 'R' && "ControlRight"@[8] == 'i' && "ControlRight"@[9] == 'g' && "ControlRight"@[10] == 'h' && "ControlRight"@[11] == 't'
    &&& "Control"@.len() == 7 && "Control"@[0] == 'C' && "Control"@[1] == 'o' && "Control"@[2] == 'n' && "Control"@[3] == 't' && "Control"@[4] == 'r' && "Control"@[5] == 'o' && "Control"@[6] == 'l'
    &&& "Ctrl"@.len() == 4 && "Ctrl"@[0] == 'C' && "Ctrl"@[1] == 't' && "Ctrl"@[2] == 'r' && "Ctrl"@[3] == 'l'
    &&& "AltLeft"@.len() == 7 && "AltLeft"@[0] == 'A' && "AltLeft"@[1] == 'l' && "AltLeft"@[2] == 't' && "AltLeft"@[3] == 'L' && "AltLeft"@[4] == 'e' && "AltLeft"@[5] == 'f' && "AltLeft"@[6] == 't'
    &&& "ALT"@.len() == 3 && "ALT"@[0] == 'A' && "ALT"@[1] == 'L' && "ALT"@[2] == 'T'
    &&& "AltRight"@.len() == 8 && "AltRight"@[0] == 'A' && "AltRight"@[1] == 'l' && "AltRight"@[2] == 't' && "AltRight"@[3] == 'R' && "AltRight"@[4] == 'i' && "AltRight"@[5] == 'g' && "AltRight"@[6] == 'h' && "AltRight"@[7] == 't'
    &&& "Alt"@.len() == 3 && "Alt"@[0] == 'A' && "Alt"@[1] == 'l' && "Alt"@[2] == 't'
    &&& "MetaLeft"@.len() == 8 && "MetaLeft"@[0] == 'M' && "MetaLeft"@[1] == 'e' && "MetaLeft"@[2] == 't' && "MetaLeft"@[3] == 'a' && "MetaLeft"@[4] == 'L' && "MetaLeft"@[5] == 'e' && "MetaLeft"@[6] == 'f' && "MetaLeft"@[7] == 't'
    &&& "OSLeft"@.len() == 6 && "OSLeft"@[0] == 'O' && "OSLeft"@[1] == 'S' && "OSLeft"@[2] == 'L' && "OSLeft"@[3] == 'e' && "OSLeft"@[4] == 'f' && "OSLeft"@[5] == 't'
    &&& "LOGO"@.len() == 4 && "LOGO"@[0] == 'L' && "LOGO"@[1] == 'O' && "LOGO"@[2] == 'G' && "LOGO"@[3] == 'O'
    &&& "MetaRight"@.len() == 9 && "MetaRight"@[0] == 'M' && "MetaRight"@[1] == 'e' && "MetaRight"@[2] == 't' && "MetaRight"@[3] == 'a' && "MetaRight"@[4] == 'R' && "MetaRight"@[5] == 'i' && "MetaRight"@[6] == 'g' && "MetaRight"@[7] == 'h' && "MetaRight"@[8] == 't'
    &&& "OSRight"@.len() == 7 && "OSRight"@[0] == 'O' && "OSRight"@[1] == 'S' && "OSRight"@[2] == 'R' && "OSRight"@[3] == 'i' && "OSRight"@[4] == 'g' && "OSRight"@[5] == 'h' && "OSRight"@[6] == 't'
    &&& "Meta"@.len() == 4 && "Meta"@[0] == 'M' && "Meta"@[1] == 'e' && "Meta"@[2] == 't' && "Meta"@[3] == 'a'
    &&& "OS"@.len() == 2 && "OS"@[0] == 'O' && "OS"@[1] == 'S'
    &&& "Win"@.len() == 3 && "Win"@[0] == 'W' && "Win"@[1] == 'i' && "Win"@[2] == 'n'
    &&& "Super"@.len() == 5 && "Super"@[0] == 'S' && "Super"@[1] == 'u' && "Super"@[2] == 'p' && "Super"@[3] == 'e' && "Super"@[4] == 'r'
    &&& "KeyA"@.len() == 4 && "KeyA"@[0] == 'K' && "KeyA"@[1] == 'e' && "KeyA"@[2] == 'y' && "KeyA"@[3] == 'A'
    &&& "A"@.len() == 1 && "A"@[0] == 'A'
    &&& "a"@.len() == 1 && "a"@[0] == 'a'
    &&& "KeyB"@.len() == 4 && "KeyB"@[0] == 'K' && "KeyB"@[1] == 'e' && "KeyB"@[2] == 'y' && "KeyB"@[3] == 'B'
    &&& "B"@.len() == 1 && "B"@[0] == 'B'
    &&& "b"@.len() == 1 && "b"@[0] == 'b'
    &&& "KeyC"@.len() == 4 && "KeyC"@[0] == 'K' && "KeyC"@[1] == 'e' && "KeyC"@[2] == 'y' && "KeyC"@[3] == 'C'
    &&& "C"@.len() == 1 && "C"@[0] == 'C'
    &&& "c"@.len() == 1 && "c"@[0] == 'c'
    &&& "KeyD"@.len() == 4 && "KeyD"@[0] == 'K' && "KeyD"@[1] == 'e' && "KeyD"@[2] == 'y' && "KeyD"@[3] == 'D'
    &&& "D"@.len() == 1 && "D"@[0] == 'D'
    &&& "d"@.len() == 1 && "d"@[0] == 'd'
    &&& "KeyE"@.len() == 4 && "KeyE"@[0] == 'K' && "KeyE"@[1] == 'e' && "KeyE"@[2] == 'y' && "KeyE"@[3] == 'E'
    &&& "E"@.len() == 1 && "E"@[0] == 'E'
    &&& "e"@.len() == 1 && "e"@[0] == 'e'
    &&& "KeyF"@.len() == 4 && "KeyF"@[0] == 'K' && "KeyF"@[1] == 'e' && "KeyF"@[2] == 'y' && "KeyF"@[3] == 'F'
    &&& "F"@.len() == 1 && "F"@[0] == 'F'
    &&& "f"@.len() == 1 && "f"@[0] == 'f'
    &&& "KeyG"@.len() == 4 && "KeyG"@[0] == 'K' && "KeyG"@[1] == 'e' && "KeyG"@[2] == 'y' && "KeyG"@[3] == 'G'
    &&& "G"@.len() == 1 && "G"@[0] == 'G'
    &&& "g"@.len() == 1 && "g"@[0] == 'g'
    &&& "KeyH"@.len() == 4 && "KeyH"@[0] == 'K' && "KeyH"@[1] == 'e' && "KeyH"@[2] == 'y' && "KeyH"@[3] == 'H'
    &&& "H"@.len() == 1 && "H"@[0] == 'H'
    &&& "h"@.len() == 1 && "h"@[0] == 'h'
    &&& "KeyI"@.len() == 4 && "KeyI"@[0] == 'K' && "KeyI"@[1] == 'e' && "KeyI"@[2] == 'y' && "KeyI"@[3] == 'I'
    &&& "I"@.len() == 1 && "I"@[0] == 'I'
    &&& "i"@.len() == 1 && "i"@[0] == 'i'
    &&& "KeyJ"@.len() == 4 && "KeyJ"@[0] == 'K' && "KeyJ"@[1] == 'e' && "KeyJ"@[2] == 'y' && "KeyJ"@[3] == 'J'
    &&& "J"@.len() == 1 && "J"@[0] == 'J'
    &&& "j"@.len() == 1 && "j"@[0] == 'j'
    &&& "KeyK"@.len() == 4 && "KeyK"@[0] == 'K' && "KeyK"@[1] == 'e' && "KeyK"@[2] == 'y' && "KeyK"@[3] == 'K'
    &&& "K"@.len() == 1 && "K"@[0] == 'K'
    &&& "k"@.len() == 1 && "k"@[0] == 'k'
    &&& "KeyL"@.len() == 4 && "KeyL"@[0] == 'K' && "KeyL"@[1] == 'e' && "KeyL"@[2] == 'y' && "KeyL"@[3] == 'L'
    &&& "L"@.len() == 1 && "L"@[0] == 'L'
    &&& "l"@.len() == 1 && "l"@[0] == 'l'
    &&& "KeyM"@.len() == 4 && "KeyM"@[0] == 'K' && "KeyM"@[1] == 'e' && "KeyM"@[2] == 'y' && "KeyM"@[3] == 'M'
    &&& "M"@.len() == 1 && "M"@[0] == 'M'
    &&& "m"@.len() == 1 && "m"@[0] == 'm'
    &&& "KeyN"@.len() == 4 && "KeyN"@[0] == 'K' && "KeyN"@[1] == 'e' && "KeyN"@[2] == 'y' && "KeyN"@[3] == 'N'
    &&& "N"@.len() == 1 && "N"@[0] == 'N'
    &&& "n"@.len() == 1 && "n"@[0] == 'n'
    &&& "KeyO"@.len() == 4 && "KeyO"@[0] == 'K' && "KeyO"@[1] == 'e' && "KeyO"@[2] == 'y' && "KeyO"@[3] == 'O'
    &&& "O"@.len() == 1 && "O"@[0] == 'O'
    &&& "o"@.len() == 1 && "o"@[0] == 'o'
    &&& "KeyP"@.len() == 4 && "KeyP"@[0] == 'K' && "KeyP"@[1] == 'e' && "KeyP"@[2] == 'y' && "KeyP"@[3] == 'P'
    &&& "P"@.len() == 1 && "P"@[0] == 'P'
    &&& "p"@.len() == 1 && "p"@[0] == 'p'
    &&& "KeyQ"@.len() == 4 && "KeyQ"@[0] == 'K' && "KeyQ"@[1] == 'e' && "KeyQ"@[2] == 'y' && "KeyQ"@[3] == 'Q'
    &&& "Q"@.len() == 1 && "Q"@[0] == 'Q'
    &&& "q"@.len() == 1 && "q"@[0] == 'q'
    &&& "KeyR"@.len() == 4 && "KeyR"@[0] == 'K' && "KeyR"@[1] == 'e' && "KeyR"@[2] == 'y' && "KeyR"@[3] == 'R'
    &&& "R"@.len() == 1 && "R"@[0] == 'R'
    &&& "r"@.len() == 1 && "r"@[0] == 'r'
    &&& "KeyS"@.len() == 4 && "KeyS"@[0] == 'K' && "KeyS"@[1] == 'e' && "KeyS"@[2] == 'y' && "KeyS"@[3] == 'S'
    &&& "S"@.len() == 1 && "S"@[0] == 'S'
    &&& "s"@.len() == 1 && "s"@[0] == 's'
    &&& "KeyT"@.len() == 4 && "KeyT"@[0] == 'K' && "KeyT"@[1] == 'e' && "KeyT"@[2] == 'y' && "KeyT"@[3] == 'T'
    &&& "T"@.len() == 1 && "T"@[0] == 'T'
    &&& "t"@.len() == 1 && "t"@[0] == 't'
    &&& "KeyU"@.len() == 4 && "KeyU"@[0] == 'K' && "KeyU"@[1] == 'e' && "KeyU"@[2] == 'y' && "KeyU"@[3] == 'U'
    &&& "U"@.len() == 1 && "U"@[0] == 'U'
    &&& "u"@.len() == 1 && "u"@[0] == 'u'
    &&& "KeyV"@.len() == 4 && "KeyV"@[0] == 'K' && "KeyV"@[1] == 'e' && "KeyV"@[2] == 'y' && "KeyV"@[3] == 'V'
    &&& "V"@.len() == 1 && "V"@[0] == 'V'
    &&& "v"@.len() == 1 && "v"@[0] == 'v'
    &&& "KeyW"@.len() == 4 && "KeyW"@[0] == 'K' && "KeyW"@[1] == 'e' && "KeyW"@[2] == 'y' && "KeyW"@[3] == 'W'
    &&& "W"@.len() == 1 && "W"@[0] == 'W'
    &&& "w"@.len() == 1 && "w"@[0] == 'w'
    &&& "KeyX"@.len() == 4 && "KeyX"@[0] == 'K' && "KeyX"@[1] == 'e' && "KeyX"@[2] == 'y' && "KeyX"@[3] == 'X'
    &&& "X"@.len() == 1 && "X"@[0] == 'X'
    &&& "x"@.len() == 1 && "x"@[0] == 'x'
    &&& "KeyY"@.len() == 4 && "KeyY"@[0] == 'K' && "KeyY"@[1] == 'e' && "KeyY"@[2] == 'y' && "KeyY"@[3] == 'Y'
    &&& "Y"@.len() == 1 && "Y"@[0] == 'Y'
    &&& "y"@.len() == 1 && "y"@[0] == 'y'
    &&& "KeyZ"@.len() == 4 && "KeyZ"@[0] == 'K' && "KeyZ"@[1] == 'e' && "KeyZ"@[2] == 'y' && "KeyZ"@[3] == 'Z'
    &&& "Z"@.len() == 1 && "Z"@[0] == 'Z'
    &&& "z"@.len() == 1 && "z"@[0] == 'z'
    &&& "Digit0"@.len() == 6 && "Digit0"@[0] == 'D' && "Digit0"@[1] == 'i' && "Digit0"@[2] == 'g' && "Digit0"@[3] == 'i' && "Digit0"@[4] == 't' && "Digit0"@[5] == '0'
    &&& "D0"@.len() == 2 && "D0"@[0] == 'D' && "D0"@[1] == '0'
    &&& "0"@.len() == 1 && "0"@[0] == '0'
    &&& "Digit1"@.len() == 6 && "Digit1"@[0] == 'D' && "Digit1"@[1] == 'i' && "Digit1"@[2] == 'g' && "Digit1"@[3] == 'i' && "Digit1"@[4] == 't' && "Digit1"@[5] == '1'
    &&& "D1"@.len() == 2 && "D1"@[0] == 'D' && "D1"@[1] == '1'
    &&& "1"@.len() == 1 && "1"@[0] == '1'
    &&& "Digit2"@.len() == 6 && "Digit2"@[0] == 'D' && "Digit2"@[1] == 'i' && "Digit2"@[2] == 'g' && "Digit2"@[3] == 'i' && "Digit2"@[4] == 't' && "Digit2"@[5] == '2'
    &&& "D2"@.len() == 2 && "D2"@[0] == 'D' && "D2"@[1] == '2'
    &&& "2"@.len() == 1 && "2"@[0] == '2'
    &&& "Digit3"@.len() == 6 && "Digit3"@[0] == 'D' && "Digit3"@[1] == 'i' && "Digit3"@[2] == 'g' && "Digit3"@[3] == 'i' && "Digit3"@[4] == 't' && "Digit3"@[5] == '3'
    &&& "D3"@.len() == 2 && "D3"@[0] == 'D' && "D3"@[1] == '3'
    &&& "3"@.len() == 1 && "3"@[0] == '3'
    &&& "Digit4"@.len() == 6 && "Digit4"@[0] == 'D' && "Digit4"@[1] == 'i' && "Digit4"@[2] == 'g' && "Digit4"@[3] == 'i' && "Digit4"@[4] == 't' && "Digit4"@[5] == '4'
    &&& "D4"@.len() == 2 && "D4"@[0] == 'D' && "D4"@[1] == '4'
    &&& "4"@.len() == 1 && "4"@[0] == '4'
    &&& "Digit5"@.len() == 6 && "Digit5"@[0] == 'D' && "Digit5"@[1] == 'i' && "Digit5"@[2] == 'g' && "Digit5"@[3] == 'i' && "Digit5"@[4] == 't' && "Digit5"@[5] == '5'
    &&& "D5"@.len() == 2 && "D5"@[0] == 'D' && "D5"@[1] == '5'
    &&& "5"@.len() == 1 && "5"@[0] == '5'
    &&& "Digit6"@.len() == 6 && "Digit6"@[0] == 'D' && "Digit6"@[1] == 'i' && "Digit6"@[2] == 'g' && "Digit6"@[3] == 'i' && "Digit6"@[4] == 't' && "Digit6"@[5] == '6'
    &&& "D6"@.len() == 2 && "D6"@[0] == 'D' && "D6"@[1] == '6'
    &&& "6"@.len() == 1 && "6"@[0] == '6'
    &&& "Digit7"@.len() == 6 && "Digit7"@[0] == 'D' && "Digit7"@[1] == 'i' && "Digit7"@[2] == 'g' && "Digit7"@[3] == 'i' && "Digit7"@[4] == 't' && "Digit7"@[5] == '7'
    &&& "D7"@.len() == 2 && "D7"@[0] == 'D' && "D7"@[1] == '7'
    &&& "7"@.len() == 1 && "7"@[0] == '7'
    &&& "Digit8"@.len() == 6 && "Digit8"@[0] == 'D' && "Digit8"@[1] == 'i' && "Digit8"@[2] == 'g' && "Digit8"@[3] == 'i' && "Digit8"@[4] == 't' && "Digit8"@[5] == '8'
    &&& "D8"@.len() == 2 && "D8"@[0] == 'D' && "D8"@[1] == '8'
    &&& "8"@.len() == 1 && "8"@[0] == '8'
    &&& "Digit9"@.len() == 6 && "Digit9"@[0] == 'D' && "Digit9"@[1] == 'i' && "Digit9"@[2] == 'g' && "Digit9"@[3] == 'i' && "Digit9"@[4] == 't' && "Digit9"@[5] == '9'
    &&& "D9"@.len() == 2 && "D9"@[0] == 'D' && "D9"@[1] == '9'
    &&& "9"@.len() == 1 && "9"@[0] == '9'
    &&& "F1"@.len() == 2 && "F1"@[0] == 'F' && "F1"@[1] == '1'
    &&& "F2"@.len() == 2 && "F2"@[0] == 'F' && "F2"@[1] == '2'
    &&& "F3"@.len() == 2 && "F3"@[0] == 'F' && "F3"@[1] == '3'
    &&& "F4"@.len() == 2 && "F4"@[0] == 'F' && "F4"@[1] == '4'
    &&& "F5"@.len() == 2 && "F5"@[0] == 'F' && "F5"@[1] == '5'
    &&& "F6"@.len() == 2 && "F6"@[0] == 'F' && "F6"@[1] == '6'
    &&& "F7"@.len() == 2 && "F7"@[0] == 'F' && "F7"@[1] == '7'
    &&& "F8"@.len() == 2 && "F8"@[0] == 'F' && "F8"@[1] == '8'
    &&& "F9"@.len() == 2 && "F9"@[0] == 'F' && "F9"@[1] == '9'
    &&& "F10"@.len() == 3 && "F10"@[0] == 'F' && "F10"@[1] == '1' && "F10"@[2] == '0'
    &&& "F11"@.len() == 3 && "F11"@[0] == 'F' && "F11"@[1] == '1' && "F11"@[2] == '1'
    &&& "F12"@.len() == 3 && "F12"@[0] == 'F' && "F12"@[1] == '1' && "F12"@[2] == '2'
    &&& "F13"@.len() == 3 && "F13"@[0] == 'F' && "F13"@[1] == '1' && "F13"@[2] == '3'
    &&& "F14"@.len() == 3 && "F14"@[0] == 'F' && "F14"@[1] == '1' && "F14"@[2] == '4'
    &&& "F15"@.len() == 3 && "F15"@[0] == 'F' && "F15"@[1] == '1' && "F15"@[2] == '5'
    &&& "F16"@.len() == 3 && "F16"@[0] == 'F' && "F16"@[1] == '1' && "F16"@[2] == '6'
    &&& "F17"@.len() == 3 && "F17"@[0] == 'F' && "F17"@[1] == '1' && "F17"@[2] == '7'
    &&& "F18"@.len() == 3 && "F18"@[0] == 'F' && "F18"@[1] == '1' && "F18"@[2] == '8'
    &&& "F19"@.len() == 3 && "F19"@[0] == 'F' && "F19"@[1] == '1' && "F19"@[2] == '9'
    &&& "F20"@.len() == 3 && "F20"@[0] == 'F' && "F20"@[1] == '2' && "F20"@[2] == '0'
    &&& "F21"@.len() == 3 && "F21"@[0] == 'F' && "F21"@[1] == '2' && "F21"@[2] == '1'
    &&& "F22"@.len() == 3 && "F22"@[0] == 'F' && "F22"@[1] == '2' && "F22"@[2] == '2'
    &&& "F23"@.len() == 3 && "F23"@[0] == 'F' && "F23"@[1] == '2' && "F23"@[2] == '3'
    &&& "F24"@.len() == 3 && "F24"@[0] == 'F' && "F24"@[1] == '2' && "F24"@[2] == '4'
    &&& "ArrowUp"@.len() == 7 && "ArrowUp"@[0] == 'A' && "ArrowUp"@[1] == 'r' && "ArrowUp"@[2] == 'r' && "ArrowUp"@[3] == 'o' && "ArrowUp"@[4] == 'w' && "ArrowUp"@[5] == 'U' && "ArrowUp"@[6] == 'p'
    &&& "Up"@.len() == 2 && "Up"@[0] == 'U' && "Up"@[1] == 'p'
    &&& "ArrowDown"@.len() == 9 && "ArrowDown"@[0] == 'A' && "ArrowDown"@[1] == 'r' && "ArrowDown"@[2] == 'r' && "ArrowDown"@[3] == 'o' && "ArrowDown"@[4] == 'w' && "ArrowDown"@[5] == 'D' && "ArrowDown"@[6] == 'o' && "ArrowDown"@[7] == 'w' && "ArrowDown"@[8] == 'n'
    &&& "Down"@.len() == 4 && "Down"@[0] == 'D' && "Down"@[1] == 'o' && "Down"@[2] == 'w' && "Down"@[3] == 'n'
    &&& "ArrowLeft"@.len() == 9 && "ArrowLeft"@[0] == 'A' && "ArrowLeft"@[1] == 'r' && "ArrowLeft"@[2] == 'r' && "ArrowLeft"@[3] == 'o' && "ArrowLeft"@[4] == 'w' && "ArrowLeft"@[5] == 'L' && "ArrowLeft"@[6] == 'e' && "ArrowLeft"@[7] == 'f' && "ArrowLeft"@[8] == 't'
    &&& "Left"@.len() == 4 && "Left"@[0] == 'L' && "Left"@[1] == 'e' && "Left"@[2] == 'f' && "Left"@[3] == 't'
    &&& "ArrowRight"@.len() == 10 && "ArrowRight"@[0] == 'A' && "ArrowRight"@[1] == 'r' && "ArrowRight"@[2] == 'r' && "ArrowRight"@[3] == 'o' && "ArrowRight"@[4] == 'w' && "ArrowRight"@[5] == 'R' && "ArrowRight"@[6] == 'i' && "ArrowRight"@[7] == 'g' && "ArrowRight"@[8] == 'h' && "ArrowRight"@[9] == 't'
    &&& "Right"@.len() == 5 && "Right"@[0] == 'R' && "Right"@[1] == 'i' && "Right"@[2] == 'g' && "Right"@[3] == 'h' && "Right"@[4] == 't'
    &&& "Home"@.len() == 4 && "Home"@[0] == 'H' && "Home"@[1] == 'o' && "Home"@[2] == 'm' && "Home"@[3] == 'e'
    &&& "End"@.len() == 3 && "End"@[0] == 'E' && "End"@[1] == 'n' && "End"@[2] == 'd'
    &&& "PageUp"@.len() == 6 && "PageUp"@[0] == 'P' && "PageUp"@[1] == 'a' && "PageUp"@[2] == 'g' && "PageUp"@[3] == 'e' && "PageUp"@[4] == 'U' && "PageUp"@[5] == 'p'
    &&& "Prior"@.len() == 5 && "Prior"@[0] == 'P' && "Prior"@[1] == 'r' && "Prior"@[2] == 'i' && "Prior"@[3] == 'o' && "Prior"@[4] == 'r'
    &&& "PageDown"@.len() == 8 && "PageDown"@[0] == 'P' && "PageDown"@[1] == 'a' && "PageDown"@[2] == 'g' && "PageDown"@[3] == 'e' && "PageDown"@[4] == 'D' && "PageDown"@[5] == 'o' && "PageDown"@[6] == 'w' && "PageDown"@[7] == 'n'
    &&& "Next"@.len() == 4 && "Next"@[0] == 'N' && "Next"@[1] == 'e' && "Next"@[2] == 'x' && "Next"@[3] == 't'
    &&& "Insert"@.len() == 6 && "Insert"@[0] == 'I' && "Insert"@[1] == 'n' && "Insert"@[2] == 's' && "Insert"@[3] == 'e' && "Insert"@[4] == 'r' && "Insert"@[5] == 't'
    &&& "Delete"@.len() == 6 && "Delete"@[0] == 'D' && "Delete"@[1] == 'e' && "Delete"@[2] == 'l' && "Delete"@[3] == 'e' && "Delete"@[4] == 't' && "Delete"@[5] == 'e'
    &&& "Enter"@.len() == 5 && "Enter"@[0] == 'E' && "Enter"@[1] == 'n' && "Enter"@[2] == 't' && "Enter"@[3] == 'e' && "Enter"@[4] == 'r'
    &&& "Return"@.len() == 6 && "Return"@[0] == 'R' && "Return"@[1] == 'e' && "Return"@[2] == 't' && "Return"@[3] == 'u' && "Return"@[4] == 'r' && "Return"@[5] == 'n'
    &&& "Backspace"@.len() == 9 && "Backspace"@[0] == 'B' && "Backspace"@[1] == 'a' && "Backspace"@[2] == 'c' && "Backspace"@[3] == 'k' && "Backspace"@[4] == 's' && "Backspace"@[5] == 'p' && "Backspace"@[6] == 'a' && "Backspace"@[7] == 'c' && "Backspace"@[8] == 'e'
    &&& "BackSpace"@.len() == 9 && "BackSpace"@[0] == 'B' && "BackSpace"@[1] == 'a' && "BackSpace"@[2] == 'c' && "BackSpace"@[3] == 'k' && "BackSpace"@[4] == 'S' && "BackSpace"@[5] == 'p' && "BackSpace"@[6] == 'a' && "BackSpace"@[7] == 'c' && "BackSpace"@[8] == 'e'
    &&& "Tab"@.len() == 3 && "Tab"@[0] == 'T' && "Tab"@[1] == 'a' && "Tab"@[2] == 'b'
    &&& "Escape"@.len() == 6 && "Escape"@[0] == 'E' && "Escape"@[1] == 's' && "Escape"@[2] == 'c' && "Escape"@[3] == 'a' && "Escape"@[4] == 'p' && "Escape"@[5] == 'e'
    &&& "Esc"@.len() == 3 && "Esc"@[0] == 'E' && "Esc"@[1] == 's' && "Esc"@[2] == 'c'
    &&& "Space"@.len() == 5 && "Space"@[0] == 'S' && "Space"@[1] == 'p' && "Space"@[2] == 'a' && "Space"@[3] == 'c' && "Space"@[4] == 'e'
    &&& "space"@.len() == 5 && "space"@[0] == 's' && "space"@[1] == 'p' && "space"@[2] == 'a' && "space"@[3] == 'c' && "space"@[4] == 'e'
    &&& "CapsLock"@.len() == 8 && "CapsLock"@[0] == 'C' && "CapsLock"@[1] == 'a' && "CapsLock"@[2] == 'p' && "CapsLock"@[3] == 's' && "CapsLock"@[4] == 'L' && "CapsLock"@[5] == 'o' && "CapsLock"@[6] == 'c' && "CapsLock"@[7] == 'k'
    &&& "Caps_Lock"@.len() == 9 && "Caps_Lock"@[0] == 'C' && "Caps_Lock"@[1] == 'a' && "Caps_Lock"@[2] == 'p' && "Caps_Lock"@[3] == 's' && "Caps_Lock"@[4] == '_' && "Caps_Lock"@[5] == 'L' && "Caps_Lock"@[6] == 'o' && "Caps_Lock"@[7] == 'c' && "Caps_Lock"@[8] == 'k'
    &&& "NumLock"@.len() == 7 && "NumLock"@[0] == 'N' && "NumLock"@[1] == 'u' && "NumLock"@[2] == 'm' && "NumLock"@[3] == 'L' && "NumLock"@[4] == 'o' && "NumLock"@[5] == 'c' && "NumLock"@[6] == 'k'
    &&& "Num_Lock"@.len() == 8 && "Num_Lock"@[0] == 'N' && "Num_Lock"@[1] == 'u' && "Num_Lock"@[2] == 'm' && "Num_Lock"@[3] == '_' && "Num_Lock"@[4] == 'L' && "Num_Lock"@[5] == 'o' && "Num_Lock"@[6] == 'c' && "Num_Lock"@[7] == 'k'
    &&& "ScrollLock"@.len() == 10 && "ScrollLock"@[0] == 'S' && "ScrollLock"@[1] == 'c' && "ScrollLock"@[2] == 'r' && "ScrollLock"@[3] == 'o' && "ScrollLock"@[4] == 'l' && "ScrollLock"@[5] == 'l' && "ScrollLock"@[6] == 'L' && "ScrollLock"@[7] == 'o' && "ScrollLock"@[8] == 'c' && "ScrollLock"@[9] == 'k'
    &&& "Scroll_Lock"@.len() == 11 && "Scroll_Lock"@[0] == 'S' && "Scroll_Lock"@[1] == 'c' && "Scroll_Lock"@[2] == 'r' && "Scroll_Lock"@[3] == 'o' && "Scroll_Lock"@[4] == 'l' && "Scroll_Lock"@[5] == 'l' && "Scroll_Lock"@[6] == '_' && "Scroll_Lock"@[7] == 'L' && "Scroll_Lock"@[8] == 'o' && "Scroll_Lock"@[9] == 'c' && "Scroll_Lock"@[10] == 'k'
    &&& "Numpad0"@.len() == 7 && "Numpad0"@[0] == 'N' && "Numpad0"@[1] == 'u' && "Numpad0"@[2] == 'm' && "Numpad0"@[3] == 'p' && "Numpad0"@[4] == 'a' && "Numpad0"@[5] == 'd' && "Numpad0"@[6] == '0'
    &&& "Num0"@.len() == 4 && "Num0"@[0] == 'N' && "Num0"@[1] == 'u' && "Num0"@[2] == 'm' && "Num0"@[3] == '0'
    &&& "KP_0"@.len() == 4 && "KP_0"@[0] == 'K' && "KP_0"@[1] == 'P' && "KP_0"@[2] == '_' && "KP_0"@[3] == '0'
    &&& "Numpad1"@.len() == 7 && "Numpad1"@[0] == 'N' && "Numpad1"@[1] == 'u' && "Numpad1"@[2] == 'm' && "Numpad1"@[3] == 'p' && "Numpad1"@[4] == 'a' && "Numpad1"@[5] == 'd' && "Numpad1"@[6] == '1'
    &&& "Num1"@.len() == 4 && "Num1"@[0] == 'N' && "Num1"@[1] == 'u' && "Num1"@[2] == 'm' && "Num1"@[3] == '1'
    &&& "KP_1"@.len() == 4 && "KP_1"@[0] == 'K' && "KP_1"@[1] == 'P' && "KP_1"@[2] == '_' && "KP_1"@[3] == '1'
    &&& "Numpad2"@.len() == 7 && "Numpad2"@[0] == 'N' && "Numpad2"@[1] == 'u' && "Numpad2"@[2] == 'm' && "Numpad2"@[3] == 'p' && "Numpad2"@[4] == 'a' && "Numpad2"@[5] == 'd' && "Numpad2"@[6] == '2'
    &&& "Num2"@.len() == 4 && "Num2"@[0] == 'N' && "Num2"@[1] == 'u' && "Num2"@[2] == 'm' && "Num2"@[3] == '2'
    &&& "KP_2"@.len() == 4 && "KP_2"@[0] == 'K' && "KP_2"@[1] == 'P' && "KP_2"@[2] == '_' && "KP_2"@[3] == '2'
    &&& "Numpad3"@.len() == 7 && "Numpad3"@[0] == 'N' && "Numpad3"@[1] == 'u' && "Numpad3"@[2] == 'm' && "Numpad3"@[3] == 'p' && "Numpad3"@[4] == 'a' && "Numpad3"@[5] == 'd' && "Numpad3"@[6] == '3'
    &&& "Num3"@.len() == 4 && "Num3"@[0] == 'N' && "Num3"@[1] == 'u' && "Num3"@[2] == 'm' && "Num3"@[3] == '3'
    &&& "KP_3"@.len() == 4 && "KP_3"@[0] == 'K' && "KP_3"@[1] == 'P' && "KP_3"@[2] == '_' && "KP_3"@[3] == '3'
    &&& "Numpad4"@.len() == 7 && "Numpad4"@[0] == 'N' && "Numpad4"@[1] == 'u' && "Numpad4"@[2] == 'm' && "Numpad4"@[3] == 'p' && "Numpad4"@[4] == 'a' && "Numpad4"@[5] == 'd' && "Numpad4"@[6] == '4'
    &&& "Num4"@.len() == 4 && "Num4"@[0] == 'N' && "Num4"@[1] == 'u' && "Num4"@[2] == 'm' && "Num4"@[3] == '4'
    &&& "KP_4"@.len() == 4 && "KP_4"@[0] == 'K' && "KP_4"@[1] == 'P' && "KP_4"@[2] == '_' && "KP_4"@[3] == '4'
    &&& "Numpad5"@.len() == 7 && "Numpad5"@[0] == 'N' && "Numpad5"@[1] == 'u' && "Numpad5"@[2] == 'm' && "Numpad5"@[3] == 'p' && "Numpad5"@[4] == 'a' && "Numpad5"@[5] == 'd' && "Numpad5"@[6] == '5'
    &&& "Num5"@.len() == 4 && "Num5"@[0] == 'N' && "Num5"@[1] == 'u' && "Num5"@[2] == 'm' && "Num5"@[3] == '5'
    &&& "KP_5"@.len() == 4 && "KP_5"@[0] == 'K' && "KP_5"@[1] == 'P' && "KP_5"@[2] == '_' && "KP_5"@[3] == '5'
    &&& "Numpad6"@.len() == 7 && "Numpad6"@[0] == 'N' && "Numpad6"@[1] == 'u' && "Numpad6"@[2] == 'm' && "Numpad6"@[3] == 'p' && "Numpad6"@[4] == 'a' && "Numpad6"@[5] == 'd' && "Numpad6"@[6] == '6'
    &&& "Num6"@.len() == 4 && "Num6"@[0] == 'N' && "Num6"@[1] == 'u' && "Num6"@[2] == 'm' && "Num6"@[3] == '6'
    &&& "KP_6"@.len() == 4 && "KP_6"@[0] == 'K' && "KP_6"@[1] == 'P' && "KP_6"@[2] == '_' && "KP_6"@[3] == '6'
    &&& "Numpad7"@.len() == 7 && "Numpad7"@[0] == 'N' && "Numpad7"@[1] == 'u' && "Numpad7"@[2] == 'm' && "Numpad7"@[3] == 'p' && "Numpad7"@[4] == 'a' && "Numpad7"@[5] == 'd' && "Numpad7"@[6] == '7'
    &&& "Num7"@.len() == 4 && "Num7"@[0] == 'N' && "Num7"@[1] == 'u' && "Num7"@[2] == 'm' && "Num7"@[3] == '7'
    &&& "KP_7"@.len() == 4 && "KP_7"@[0] == 'K' && "KP_7"@[1] == 'P' && "KP_7"@[2] == '_' && "KP_7"@[3] == '7'
    &&& "Numpad8"@.len() == 7 && "Numpad8"@[0] == 'N' && "Numpad8"@[1] == 'u' && "Numpad8"@[2] == 'm' && "Numpad8"@[3] == 'p' && "Numpad8"@[4] == 'a' && "Numpad8"@[5] == 'd' && "Numpad8"@[6] == '8'
    &&& "Num8"@.len() == 4 && "Num8"@[0] == 'N' && "Num8"@[1] == 'u' && "Num8"@[2] == 'm' && "Num8"@[3] == '8'
    &&& "KP_8"@.len() == 4 && "KP_8"@[0] == 'K' && "KP_8"@[1] == 'P' && "KP_8"@[2] == '_' && "KP_8"@[3] == '8'
    &&& "Numpad9"@.len() == 7 && "Numpad9"@[0] == 'N' && "Numpad9"@[1] == 'u' && "Numpad9"@[2] == 'm' && "Numpad9"@[3] == 'p' && "Numpad9"@[4] == 'a' && "Numpad9"@[5] == 'd' && "Numpad9"@[6] == '9'
    &&& "Num9"@.len() == 4 && "Num9"@[0] == 'N' && "Num9"@[1] == 'u' && "Num9"@[2] == 'm' && "Num9"@[3] == '9'
    &&& "KP_9"@.len() == 4 && "KP_9"@[0] == 'K' && "KP_9"@[1] == 'P' && "KP_9"@[2] == '_' && "KP_9"@[3] == '9'
    &&& "NumpadMultiply"@.len() == 14 && "NumpadMultiply"@[0] == 'N' && "NumpadMultiply"@[1] == 'u' && "NumpadMultiply"@[2] == 'm' && "NumpadMultiply"@[3] == 'p' && "NumpadMultiply"@[4] == 'a' && "NumpadMultiply"@[5] == 'd' && "NumpadMultiply"@[6] == 'M' && "NumpadMultiply"@[7] == 'u' && "NumpadMultiply"@[8] == 'l' && "NumpadMultiply"@[9] == 't' && "NumpadMultiply"@[10] == 'i' && "NumpadMultiply"@[11] == 'p' && "NumpadMultiply"@[12] == 'l' && "NumpadMultiply"@[13] == 'y'
    &&& "NumMultiply"@.len() == 11 && "NumMultiply"@[0] == 'N' && "NumMultiply"@[1] == 'u' && "NumMultiply"@[2] == 'm' && "NumMultiply"@[3] == 'M' && "NumMultiply"@[4] == 'u' && "NumMultiply"@[5] == 'l' && "NumMultiply"@[6] == 't' && "NumMultiply"@[7] == 'i' && "NumMultiply"@[8] == 'p' && "NumMultiply"@[9] == 'l' && "NumMultiply"@[10] == 'y'
    &&& "KP_Multiply"@.len() == 11 && "KP_Multiply"@[0] == 'K' && "KP_Multiply"@[1] == 'P' && "KP_Multiply"@[2] == '_' && "KP_Multiply"@[3] == 'M' && "KP_Multiply"@[4] == 'u' && "KP_Multiply"@[5] == 'l' && "KP_Multiply"@[6] == 't' && "KP_Multiply"@[7] == 'i' && "KP_Multiply"@[8] == 'p' && "KP_Multiply"@[9] == 'l' && "KP_Multiply"@[10] == 'y'
    &&& "NumpadAdd"@.len() == 9 && "NumpadAdd"@[0] == 'N' && "NumpadAdd"@[1] == 'u' && "NumpadAdd"@[2] == 'm' && "NumpadAdd"@[3] == 'p' && "NumpadAdd"@[4] == 'a' && "NumpadAdd"@[5] == 'd' && "NumpadAdd"@[6] == 'A' && "NumpadAdd"@[7] == 'd' && "NumpadAdd"@[8] == 'd'
    &&& "NumAdd"@.len() == 6 && "NumAdd"@[0] == 'N' && "NumAdd"@[1] == 'u' && "NumAdd"@[2] == 'm' && "NumAdd"@[3] == 'A' && "NumAdd"@[4] == 'd' && "NumAdd"@[5] == 'd'
    &&& "KP_Add"@.len() == 6 && "KP_Add"@[0] == 'K' && "KP_Add"@[1] == 'P' && "KP_Add"@[2] == '_' && "KP_Add"@[3] == 'A' && "KP_Add"@[4] == 'd' && "KP_Add"@[5] == 'd'
    &&& "NumpadSubtract"@.len() == 14 && "NumpadSubtract"@[0] == 'N' && "NumpadSubtract"@[1] == 'u' && "NumpadSubtract"@[2] == 'm' && "NumpadSubtract"@[3] == 'p' && "NumpadSubtract"@[4] == 'a' && "NumpadSubtract"@[5] == 'd' && "NumpadSubtract"@[6] == 'S' && "NumpadSubtract"@[7] == 'u' && "NumpadSubtract"@[8] == 'b' && "NumpadSubtract"@[9] == 't' && "NumpadSubtract"@[10] == 'r' && "NumpadSubtract"@[11] == 'a' && "NumpadSubtract"@[12] == 'c' && "NumpadSubtract"@[13] == 't'
    &&& "NumSubtract"@.len() == 11 && "NumSubtract"@[0] == 'N' && "NumSubtract"@[1] == 'u' && "NumSubtract"@[2] == 'm' && "NumSubtract"@[3] == 'S' && "NumSubtract"@[4] == 'u' && "NumSubtract"@[5] == 'b' && "NumSubtract"@[6] == 't' && "NumSubtract"@[7] == 'r' && "NumSubtract"@[8] == 'a' && "NumSubtract"@[9] == 'c' && "NumSubtract"@[10] == 't'
    &&& "KP_Subtract"@.len() == 11 && "KP_Subtract"@[0] == 'K' && "KP_Subtract"@[1] == 'P' && "KP_Subtract"@[2] == '_' && "KP_Subtract"@[3] == 'S' && "KP_Subtract"@[4] == 'u' && "KP_Subtract"@[5] == 'b' && "KP_Subtract"@[6] == 't' && "KP_Subtract"@[7] == 'r' && "KP_Subtract"@[8] == 'a' && "KP_Subtract"@[9] == 'c' && "KP_Subtract"@[10] == 't'
    &&& "NumpadDecimal"@.len() == 13 && "NumpadDecimal"@[0] == 'N' && "NumpadDecimal"@[1] == 'u' && "NumpadDecimal"@[2] == 'm' && "NumpadDecimal"@[3] == 'p' && "NumpadDecimal"@[4] == 'a' && "NumpadDecimal"@[5] == 'd' && "NumpadDecimal"@[6] == 'D' && "NumpadDecimal"@[7] == 'e' && "NumpadDecimal"@[8] == 'c' && "NumpadDecimal"@[9] == 'i' && "NumpadDecimal"@[10] == 'm' && "NumpadDecimal"@[11] == 'a' && "NumpadDecimal"@[12] == 'l'
    &&& "NumDecimal"@.len() == 10 && "NumDecimal"@[0] == 'N' && "NumDecimal"@[1] == 'u' && "NumDecimal"@[2] == 'm' && "NumDecimal"@[3] == 'D' && "NumDecimal"@[4] == 'e' && "NumDecimal"@[5] == 'c' && "NumDecimal"@[6] == 'i' && "NumDecimal"@[7] == 'm' && "NumDecimal"@[8] == 'a' && "NumDecimal"@[9] == 'l'
    &&& "KP_Decimal"@.len() == 10 && "KP_Decimal"@[0] == 'K' && "KP_Decimal"@[1] == 'P' && "KP_Decimal"@[2] == '_' && "KP_Decimal"@[3] == 'D' && "KP_Decimal"@[4] == 'e' && "KP_Decimal"@[5] == 'c' && "KP_Decimal"@[6] == 'i' && "KP_Decimal"@[7] == 'm' && "KP_Decimal"@[8] == 'a' && "KP_Decimal"@[9] == 'l'
    &&& "NumpadDivide"@.len() == 12 && "NumpadDivide"@[0] == 'N' && "NumpadDivide"@[1] == 'u' && "NumpadDivide"@[2] == 'm' && "NumpadDivide"@[3] == 'p' && "NumpadDivide"@[4] == 'a' && "NumpadDivide"@[5] == 'd' && "NumpadDivide"@[6] == 'D' && "NumpadDivide"@[7] == 'i' && "NumpadDivide"@[8] == 'v' && "NumpadDivide"@[9] == 'i' && "NumpadDivide"@[10] == 'd' && "NumpadDivide"@[11] == 'e'
    &&& "NumDivide"@.len() == 9 && "NumDivide"@[0] == 'N' && "NumDivide"@[1] == 'u' && "NumDivide"@[2] == 'm' && "NumDivide"@[3] == 'D' && "NumDivide"@[4] == 'i' && "NumDivide"@[5] == 'v' && "NumDivide"@[6] == 'i' && "NumDivide"@[7] == 'd' && "NumDivide"@[8] == 'e'
    &&& "KP_Divide"@.len() == 9 && "KP_Divide"@[0] == 'K' && "KP_Divide"@[1] == 'P' && "KP_Divide"@[2] == '_' && "KP_Divide"@[3] == 'D' && "KP_Divide"@[4] == 'i' && "KP_Divide"@[5] == 'v' && "KP_Divide"@[6] == 'i' && "KP_Divide"@[7] == 'd' && "KP_Divide"@[8] == 'e'
    &&& "NumpadEnter"@.len() == 11 && "NumpadEnter"@[0] == 'N' && "NumpadEnter"@[1] == 'u' && "NumpadEnter"@[2] == 'm' && "NumpadEnter"@[3] == 'p' && "NumpadEnter"@[4] == 'a' && "NumpadEnter"@[5] == 'd' && "NumpadEnter"@[6] == 'E' && "NumpadEnter"@[7] == 'n' && "NumpadEnter"@[8] == 't' && "NumpadEnter"@[9] == 'e' && "NumpadEnter"@[10] == 'r'
    &&& "NumEnter"@.len() == 8 && "NumEnter"@[0] == 'N' && "NumEnter"@[1] == 'u' && "NumEnter"@[2] == 'm' && "NumEnter"@[3] == 'E' && "NumEnter"@[4] == 'n' && "NumEnter"@[5] == 't' && "NumEnter"@[6] == 'e' && "NumEnter"@[7] == 'r'
    &&& "KP_Enter"@.len() == 8 && "KP_Enter"@[0] == 'K' && "KP_Enter"@[1] == 'P' && "KP_Enter"@[2] == '_' && "KP_Enter"@[3] == 'E' && "KP_Enter"@[4] == 'n' && "KP_Enter"@[5] == 't' && "KP_Enter"@[6] == 'e' && "KP_Enter"@[7] == 'r'
    &&& "NumpadSeparator"@.len() == 15 && "NumpadSeparator"@[0] == 'N' && "NumpadSeparator"@[1] == 'u' && "NumpadSeparator"@[2] == 'm' && "NumpadSeparator"@[3] == 'p' && "NumpadSeparator"@[4] == 'a' && "NumpadSeparator"@[5] == 'd' && "NumpadSeparator"@[6] == 'S' && "NumpadSeparator"@[7] == 'e' && "NumpadSeparator"@[8] == 'p' && "NumpadSeparator"@[9] == 'a' && "NumpadSeparator"@[10] == 'r' && "NumpadSeparator"@[11] == 'a' && "NumpadSeparator"@[12] == 't' && "NumpadSeparator"@[13] == 'o' && "NumpadSeparator"@[14] == 'r'
    &&& "NumSeparator"@.len() == 12 && "NumSeparator"@[0] == 'N' && "NumSeparator"@[1] == 'u' && "NumSeparator"@[2] == 'm' && "NumSeparator"@[3] == 'S' && "NumSeparator"@[4] == 'e' && "NumSeparator"@[5] == 'p' && "NumSeparator"@[6] == 'a' && "NumSeparator"@[7] == 'r' && "NumSeparator"@[8] == 'a' && "NumSeparator"@[9] == 't' && "NumSeparator"@[10] == 'o' && "NumSeparator"@[11] == 'r'
    &&& "KP_Separator"@.len() == 12 && "KP_Separator"@[0] == 'K' && "KP_Separator"@[1] == 'P' && "KP_Separator"@[2] == '_' && "KP_Separator"@[3] == 'S' && "KP_Separator"@[4] == 'e' && "KP_Separator"@[5] == 'p' && "KP_Separator"@[6] == 'a' && "KP_Separator"@[7] == 'r' && "KP_Separator"@[8] == 'a' && "KP_Separator"@[9] == 't' && "KP_Separator"@[10] == 'o' && "KP_Separator"@[11] == 'r'
    &&& "AudioVolumeMute"@.len() == 15 && "AudioVolumeMute"@[0] == 'A' && "AudioVolumeMute"@[1] == 'u' && "AudioVolumeMute"@[2] == 'd' && "AudioVolumeMute"@[3] == 'i' && "AudioVolumeMute"@[4] == 'o' && "AudioVolumeMute"@[5] == 'V' && "AudioVolumeMute"@[6] == 'o' && "AudioVolumeMute"@[7] == 'l' && "AudioVolumeMute"@[8] == 'u' && "AudioVolumeMute"@[9] == 'm' && "AudioVolumeMute"@[10] == 'e' && "AudioVolumeMute"@[11] == 'M' && "AudioVolumeMute"@[12] == 'u' && "AudioVolumeMute"@[13] == 't' && "AudioVolumeMute"@[14] == 'e'
    &&& "VolumeMute"@.len() == 10 && "VolumeMute"@[0] == 'V' && "VolumeMute"@[1] == 'o' && "VolumeMute"@[2] == 'l' && "VolumeMute"@[3] == 'u' && "VolumeMute"@[4] == 'm' && "VolumeMute"@[5] == 'e' && "VolumeMute"@[6] == 'M' && "VolumeMute"@[7] == 'u' && "VolumeMute"@[8] == 't' && "VolumeMute"@[9] == 'e'
    &&& "XF86AudioMute"@.len() == 13 && "XF86AudioMute"@[0] == 'X' && "XF86AudioMute"@[1] == 'F' && "XF86AudioMute"@[2] == '8' && "XF86AudioMute"@[3] == '6' && "XF86AudioMute"@[4] == 'A' && "XF86AudioMute"@[5] == 'u' && "XF86AudioMute"@[6] == 'd' && "XF86AudioMute"@[7] == 'i' && "XF86AudioMute"@[8] == 'o' && "XF86AudioMute"@[9] == 'M' && "XF86AudioMute"@[10] == 'u' && "XF86AudioMute"@[11] == 't' && "XF86AudioMute"@[12] == 'e'
    &&& "AudioVolumeDown"@.len() == 15 && "AudioVolumeDown"@[0] == 'A' && "AudioVolumeDown"@[1] == 'u' && "AudioVolumeDown"@[2] == 'd' && "AudioVolumeDown"@[3] == 'i' && "AudioVolumeDown"@[4] == 'o' && "AudioVolumeDown"@[5] == 'V' && "AudioVolumeDown"@[6] == 'o' && "AudioVolumeDown"@[7] == 'l' && "AudioVolumeDown"@[8] == 'u' && "AudioVolumeDown"@[9] == 'm' && "AudioVolumeDown"@[10] == 'e' && "AudioVolumeDown"@[11] == 'D' && "AudioVolumeDown"@[12] == 'o' && "AudioVolumeDown"@[13] == 'w' && "AudioVolumeDown"@[14] == 'n'
    &&& "VolumeDown"@.len() == 10 && "VolumeDown"@[0] == 'V' && "VolumeDown"@[1] == 'o' && "VolumeDown"@[2] == 'l' && "VolumeDown"@[3] == 'u' && "VolumeDown"@[4] == 'm' && "VolumeDown"@[5] == 'e' && "VolumeDown"@[6] == 'D' && "VolumeDown"@[7] == 'o' && "VolumeDown"@[8] == 'w' && "VolumeDown"@[9] == 'n'
    &&& "XF86AudioLowerVolume"@.len() == 20 && "XF86AudioLowerVolume"@[0] == 'X' && "XF86AudioLowerVolume"@[1] == 'F' && "XF86AudioLowerVolume"@[2] == '8' && "XF86AudioLowerVolume"@[3] == '6' && "XF86AudioLowerVolume"@[4] == 'A' && "XF86AudioLowerVolume"@[5] == 'u' && "XF86AudioLowerVolume"@[6] == 'd' && "XF86AudioLowerVolume"@[7] == 'i' && "XF86AudioLowerVolume"@[8] == 'o' && "XF86AudioLowerVolume"@[9] == 'L' && "XF86AudioLowerVolume"@[10] == 'o' && "XF86AudioLowerVolume"@[11] == 'w' && "XF86AudioLowerVolume"@[12] == 'e' && "XF86AudioLowerVolume"@[13] == 'r' && "XF86AudioLowerVolume"@[14] == 'V' && "XF86AudioLowerVolume"@[15] == 'o' && "XF86AudioLowerVolume"@[16] == 'l' && "XF86AudioLowerVolume"@[17] == 'u' && "XF86AudioLowerVolume"@[18] == 'm' && "XF86AudioLowerVolume"@[19] == 'e'
    &&& "AudioVolumeUp"@.len() == 13 && "AudioVolumeUp"@[0] == 'A' && "AudioVolumeUp"@[1] == 'u' && "AudioVolumeUp"@[2] == 'd' && "AudioVolumeUp"@[3] == 'i' && "AudioVolumeUp"@[4] == 'o' && "AudioVolumeUp"@[5] == 'V' && "AudioVolumeUp"@[6] == 'o' && "AudioVolumeUp"@[7] == 'l' && "AudioVolumeUp"@[8] == 'u' && "AudioVolumeUp"@[9] == 'm' && "AudioVolumeUp"@[10] == 'e' && "AudioVolumeUp"@[11] == 'U' && "AudioVolumeUp"@[12] == 'p'
    &&& "VolumeUp"@.len() == 8 && "VolumeUp"@[0] == 'V' && "VolumeUp"@[1] == 'o' && "VolumeUp"@[2] == 'l' && "VolumeUp"@[3] == 'u' && "VolumeUp"@[4] == 'm' && "VolumeUp"@[5] == 'e' && "VolumeUp"@[6] == 'U' && "VolumeUp"@[7] == 'p'
    &&& "XF86AudioRaiseVolume"@.len() == 20 && "XF86AudioRaiseVolume"@[0] == 'X' && "XF86AudioRaiseVolume"@[1] == 'F' && "XF86AudioRaiseVolume"@[2] == '8' && "XF86AudioRaiseVolume"@[3] == '6' && "XF86AudioRaiseVolume"@[4] == 'A' && "XF86AudioRaiseVolume"@[5] == 'u' && "XF86AudioRaiseVolume"@[6] == 'd' && "XF86AudioRaiseVolume"@[7] == 'i' && "XF86AudioRaiseVolume"@[8] == 'o' && "XF86AudioRaiseVolume"@[9] == 'R' && "XF86AudioRaiseVolume"@[10] == 'a' && "XF86AudioRaiseVolume"@[11] == 'i' && "XF86AudioRaiseVolume"@[12] == 's' && "XF86AudioRaiseVolume"@[13] == 'e' && "XF86AudioRaiseVolume"@[14] == 'V' && "XF86AudioRaiseVolume"@[15] == 'o' && "XF86AudioRaiseVolume"@[16] == 'l' && "XF86AudioRaiseVolume"@[17] == 'u' && "XF86AudioRaiseVolume"@[18] == 'm' && "XF86AudioRaiseVolume"@[19] == 'e'
    &&& "MediaPlayPause"@.len() == 14 && "MediaPlayPause"@[0] == 'M' && "MediaPlayPause"@[1] == 'e' && "MediaPlayPause"@[2] == 'd' && "MediaPlayPause"@[3] == 'i' && "MediaPlayPause"@[4] == 'a' && "MediaPlayPause"@[5] == 'P' && "MediaPlayPause"@[6] == 'l' && "MediaPlayPause"@[7] == 'a' && "MediaPlayPause"@[8] == 'y' && "MediaPlayPause"@[9] == 'P' && "MediaPlayPause"@[10] == 'a' && "MediaPlayPause"@[11] == 'u' && "MediaPlayPause"@[12] == 's' && "MediaPlayPause"@[13] == 'e'
    &&& "XF86AudioPlay"@.len() == 13 && "XF86AudioPlay"@[0] == 'X' && "XF86AudioPlay"@[1] == 'F' && "XF86AudioPlay"@[2] == '8' && "XF86AudioPlay"@[3] == '6' && "XF86AudioPlay"@[4] == 'A' && "XF86AudioPlay"@[5] == 'u' && "XF86AudioPlay"@[6] == 'd' && "XF86AudioPlay"@[7] == 'i' && "XF86AudioPlay"@[8] == 'o' && "XF86AudioPlay"@[9] == 'P' && "XF86AudioPlay"@[10] == 'l' && "XF86AudioPlay"@[11] == 'a' && "XF86AudioPlay"@[12] == 'y'
    &&& "MediaStop"@.len() == 9 && "MediaStop"@[0] == 'M' && "MediaStop"@[1] == 'e' && "MediaStop"@[2] == 'd' && "MediaStop"@[3] == 'i' && "MediaStop"@[4] == 'a' && "MediaStop"@[5] == 'S' && "MediaStop"@[6] == 't' && "MediaStop"@[7] == 'o' && "MediaStop"@[8] == 'p'
    &&& "XF86AudioStop"@.len() == 13 && "XF86AudioStop"@[0] == 'X' && "XF86AudioStop"@[1] == 'F' && "XF86AudioStop"@[2] == '8' && "XF86AudioStop"@[3] == '6' && "XF86AudioStop"@[4] == 'A' && "XF86AudioStop"@[5] == 'u' && "XF86AudioStop"@[6] == 'd' && "XF86AudioStop"@[7] == 'i' && "XF86AudioStop"@[8] == 'o' && "XF86AudioStop"@[9] == 'S' && "XF86AudioStop"@[10] == 't' && "XF86AudioStop"@[11] == 'o' && "XF86AudioStop"@[12] == 'p'
    &&& "MediaTrackNext"@.len() == 14 && "MediaTrackNext"@[0] == 'M' && "MediaTrackNext"@[1] == 'e' && "MediaTrackNext"@[2] == 'd' && "MediaTrackNext"@[3] == 'i' && "MediaTrackNext"@[4] == 'a' && "MediaTrackNext"@[5] == 'T' && "MediaTrackNext"@[6] == 'r' && "MediaTrackNext"@[7] == 'a' && "MediaTrackNext"@[8] == 'c' && "MediaTrackNext"@[9] == 'k' && "MediaTrackNext"@[10] == 'N' && "MediaTrackNext"@[11] == 'e' && "MediaTrackNext"@[12] == 'x' && "MediaTrackNext"@[13] == 't'
    &&& "MediaNext"@.len() == 9 && "MediaNext"@[0] == 'M' && "MediaNext"@[1] == 'e' && "MediaNext"@[2] == 'd' && "MediaNext"@[3] == 'i' && "MediaNext"@[4] == 'a' && "MediaNext"@[5] == 'N' && "MediaNext"@[6] == 'e' && "MediaNext"@[7] == 'x' && "MediaNext"@[8] == 't'
    &&& "XF86AudioNext"@.len() == 13 && "XF86AudioNext"@[0] == 'X' && "XF86AudioNext"@[1] == 'F' && "XF86AudioNext"@[2] == '8' && "XF86AudioNext"@[3] == '6' && "XF86AudioNext"@[4] == 'A' && "XF86AudioNext"@[5] == 'u' && "XF86AudioNext"@[6] == 'd' && "XF86AudioNext"@[7] == 'i' && "XF86AudioNext"@[8] == 'o' && "XF86AudioNext"@[9] == 'N' && "XF86AudioNext"@[10] == 'e' && "XF86AudioNext"@[11] == 'x' && "XF86AudioNext"@[12] == 't'
    &&& "MediaTrackPrevious"@.len() == 18 && "MediaTrackPrevious"@[0] == 'M' && "MediaTrackPrevious"@[1] == 'e' && "MediaTrackPrevious"@[2] == 'd' && "MediaTrackPrevious"@[3] == 'i' && "MediaTrackPrevious"@[4] == 'a' && "MediaTrackPrevious"@[5] == 'T' && "MediaTrackPrevious"@[6] == 'r' && "MediaTrackPrevious"@[7] == 'a' && "MediaTrackPrevious"@[8] == 'c' && "MediaTrackPrevious"@[9] == 'k' && "MediaTrackPrevious"@[10] == 'P' && "MediaTrackPrevious"@[11] == 'r' && "MediaTrackPrevious"@[12] == 'e' && "MediaTrackPrevious"@[13] == 'v' && "MediaTrackPrevious"@[14] == 'i' && "MediaTrackPrevious"@[15] == 'o' && "MediaTrackPrevious"@[16] == 'u' && "MediaTrackPrevious"@[17] == 's'
    &&& "MediaPrevious"@.len() == 13 && "MediaPrevious"@[0] == 'M' && "MediaPrevious"@[1] == 'e' && "MediaPrevious"@[2] == 'd' && "MediaPrevious"@[3] == 'i' && "MediaPrevious"@[4] == 'a' && "MediaPrevious"@[5] == 'P' && "MediaPrevious"@[6] == 'r' && "MediaPrevious"@[7] == 'e' && "MediaPrevious"@[8] == 'v' && "MediaPrevious"@[9] == 'i' && "MediaPrevious"@[10] == 'o' && "MediaPrevious"@[11] == 'u' && "MediaPrevious"@[12] == 's'
    &&& "XF86AudioPrev"@.len() == 13 && "XF86AudioPrev"@[0] == 'X' && "XF86AudioPrev"@[1] == 'F' && "XF86AudioPrev"@[2] == '8' && "XF86AudioPrev"@[3] == '6' && "XF86AudioPrev"@[4] == 'A' && "XF86AudioPrev"@[5] == 'u' && "XF86AudioPrev"@[6] == 'd' && "XF86AudioPrev"@[7] == 'i' && "XF86AudioPrev"@[8] == 'o' && "XF86AudioPrev"@[9] == 'P' && "XF86AudioPrev"@[10] == 'r' && "XF86AudioPrev"@[11] == 'e' && "XF86AudioPrev"@[12] == 'v'
    &&& "MediaSelect"@.len() == 11 && "MediaSelect"@[0] == 'M' && "MediaSelect"@[1] == 'e' && "MediaSelect"@[2] == 'd' && "MediaSelect"@[3] == 'i' && "MediaSelect"@[4] == 'a' && "MediaSelect"@[5] == 'S' && "MediaSelect"@[6] == 'e' && "MediaSelect"@[7] == 'l' && "MediaSelect"@[8] == 'e' && "MediaSelect"@[9] == 'c' && "MediaSelect"@[10] == 't'
    &&& "XF86AudioMedia"@.len() == 14 && "XF86AudioMedia"@[0] == 'X' && "XF86AudioMedia"@[1] == 'F' && "XF86AudioMedia"@[2] == '8' && "XF86AudioMedia"@[3] == '6' && "XF86AudioMedia"@[4] == 'A' && "XF86AudioMedia"@[5] == 'u' && "XF86AudioMedia"@[6] == 'd' && "XF86AudioMedia"@[7] == 'i' && "XF86AudioMedia"@[8] == 'o' && "XF86AudioMedia"@[9] == 'M' && "XF86AudioMedia"@[10] == 'e' && "XF86AudioMedia"@[11] == 'd' && "XF86AudioMedia"@[12] == 'i' && "XF86AudioMedia"@[13] == 'a'
    &&& "LaunchMail"@.len() == 10 && "LaunchMail"@[0] == 'L' && "LaunchMail"@[1] == 'a' && "LaunchMail"@[2] == 'u' && "LaunchMail"@[3] == 'n' && "LaunchMail"@[4] == 'c' && "LaunchMail"@[5] == 'h' && "LaunchMail"@[6] == 'M' && "LaunchMail"@[7] == 'a' && "LaunchMail"@[8] == 'i' && "LaunchMail"@[9] == 'l'
    &&& "XF86Mail"@.len() == 8 && "XF86Mail"@[0] == 'X' && "XF86Mail"@[1] == 'F' && "XF86Mail"@[2] == '8' && "XF86Mail"@[3] == '6' && "XF86Mail"@[4] == 'M' && "XF86Mail"@[5] == 'a' && "XF86Mail"@[6] == 'i' && "XF86Mail"@[7] == 'l'
    &&& "LaunchApp1"@.len() == 10 && "LaunchApp1"@[0] == 'L' && "LaunchApp1"@[1] == 'a' && "LaunchApp1"@[2] == 'u' && "LaunchApp1"@[3] == 'n' && "LaunchApp1"@[4] == 'c' && "LaunchApp1"@[5] == 'h' && "LaunchApp1"@[6] == 'A' && "LaunchApp1"@[7] == 'p' && "LaunchApp1"@[8] == 'p' && "LaunchApp1"@[9] == '1'
    &&& "XF86Launch1"@.len() == 11 && "XF86Launch1"@[0] == 'X' && "XF86Launch1"@[1] == 'F' && "XF86Launch1"@[2] == '8' && "XF86Launch1"@[3] == '6' && "XF86Launch1"@[4] == 'L' && "XF86Launch1"@[5] == 'a' && "XF86Launch1"@[6] == 'u' && "XF86Launch1"@[7] == 'n' && "XF86Launch1"@[8] == 'c' && "XF86Launch1"@[9] == 'h' && "XF86Launch1"@[10] == '1'
    &&& "LaunchApp2"@.len() == 10 && "LaunchApp2"@[0] == 'L' && "LaunchApp2"@[1] == 'a' && "LaunchApp2"@[2] == 'u' && "LaunchApp2"@[3] == 'n' && "LaunchApp2"@[4] == 'c' && "LaunchApp2"@[5] == 'h' && "LaunchApp2"@[6] == 'A' && "LaunchApp2"@[7] == 'p' && "LaunchApp2"@[8] == 'p' && "LaunchApp2"@[9] == '2'
    &&& "XF86Launch2"@.len() == 11 && "XF86Launch2"@[0] == 'X' && "XF86Launch2"@[1] == 'F' && "XF86Launch2"@[2] == '8' && "XF86Launch2"@[3] == '6' && "XF86Launch2"@[4] == 'L' && "XF86Launch2"@[5] == 'a' && "XF86Launch2"@[6] == 'u' && "XF86Launch2"@[7] == 'n' && "XF86Launch2"@[8] == 'c' && "XF86Launch2"@[9] == 'h' && "XF86Launch2"@[10] == '2'
    &&& "BrowserBack"@.len() == 11 && "BrowserBack"@[0] == 'B' && "BrowserBack"@[1] == 'r' && "BrowserBack"@[2] == 'o' && "BrowserBack"@[3] == 'w' && "BrowserBack"@[4] == 's' && "BrowserBack"@[5] == 'e' && "BrowserBack"@[6] == 'r' && "BrowserBack"@[7] == 'B' && "BrowserBack"@[8] == 'a' && "BrowserBack"@[9] == 'c' && "BrowserBack"@[10] == 'k'
    &&& "XF86Back"@.len() == 8 && "XF86Back"@[0] == 'X' && "XF86Back"@[1] == 'F' && "XF86Back"@[2] == '8' && "XF86Back"@[3] == '6' && "XF86Back"@[4] == 'B' && "XF86Back"@[5] == 'a' && "XF86Back"@[6] == 'c' && "XF86Back"@[7] == 'k'
    &&& "BrowserForward"@.len() == 14 && "BrowserForward"@[0] == 'B' && "BrowserForward"@[1] == 'r' && "BrowserForward"@[2] == 'o' && "BrowserForward"@[3] == 'w' && "BrowserForward"@[4] == 's' && "BrowserForward"@[5] == 'e' && "BrowserForward"@[6] == 'r' && "BrowserForward"@[7] == 'F' && "BrowserForward"@[8] == 'o' && "BrowserForward"@[9] == 'r' && "BrowserForward"@[10] == 'w' && "BrowserForward"@[11] == 'a' && "BrowserForward"@[12] == 'r' && "BrowserForward"@[13] == 'd'
    &&& "XF86Forward"@.len() == 11 && "XF86Forward"@[0] == 'X' && "XF86Forward"@[1] == 'F' && "XF86Forward"@[2] == '8' && "XF86Forward"@[3] == '6' && "XF86Forward"@[4] == 'F' && "XF86Forward"@[5] == 'o' && "XF86Forward"@[6] == 'r' && "XF86Forward"@[7] == 'w' && "XF86Forward"@[8] == 'a' && "XF86Forward"@[9] == 'r' && "XF86Forward"@[10] == 'd'
    &&& "BrowserRefresh"@.len() == 14 && "BrowserRefresh"@[0] == 'B' && "BrowserRefresh"@[1] == 'r' && "BrowserRefresh"@[2] == 'o' && "BrowserRefresh"@[3] == 'w' && "BrowserRefresh"@[4] == 's' && "BrowserRefresh"@[5] == 'e' && "BrowserRefresh"@[6] == 'r' && "BrowserRefresh"@[7] == 'R' && "BrowserRefresh"@[8] == 'e' && "BrowserRefresh"@[9] == 'f' && "BrowserRefresh"@[10] == 'r' && "BrowserRefresh"@[11] == 'e' && "BrowserRefresh"@[12] == 's' && "BrowserRefresh"@[13] == 'h'
    &&& "XF86Refresh"@.len() == 11 && "XF86Refresh"@[0] == 'X' && "XF86Refresh"@[1] == 'F' && "XF86Refresh"@[2] == '8' && "XF86Refresh"@[3] == '6' && "XF86Refresh"@[4] == 'R' && "XF86Refresh"@[5] == 'e' && "XF86Refresh"@[6] == 'f' && "XF86Refresh"@[7] == 'r' && "XF86Refresh"@[8] == 'e' && "XF86Refresh"@[9] == 's' && "XF86Refresh"@[10] == 'h'
    &&& "BrowserStop"@.len() == 11 && "BrowserStop"@[0] == 'B' && "BrowserStop"@[1] == 'r' && "BrowserStop"@[2] == 'o' && "BrowserStop"@[3] == 'w' && "BrowserStop"@[4] == 's' && "BrowserStop"@[5] == 'e' && "BrowserStop"@[6] == 'r' && "BrowserStop"@[7] == 'S' && "BrowserStop"@[8] == 't' && "BrowserStop"@[9] == 'o' && "BrowserStop"@[10] == 'p'
    &&& "XF86Stop"@.len() == 8 && "XF86Stop"@[0] == 'X' && "XF86Stop"@[1] == 'F' && "XF86Stop"@[2] == '8' && "XF86Stop"@[3] == '6' && "XF86Stop"@[4] == 'S' && "XF86Stop"@[5] == 't' && "XF86Stop"@[6] == 'o' && "XF86Stop"@[7] == 'p'
    &&& "BrowserSearch"@.len() == 13 && "BrowserSearch"@[0] == 'B' && "BrowserSearch"@[1] == 'r' && "BrowserSearch"@[2] == 'o' && "BrowserSearch"@[3] == 'w' && "BrowserSearch"@[4] == 's' && "BrowserSearch"@[5] == 'e' && "BrowserSearch"@[6] == 'r' && "BrowserSearch"@[7] == 'S' && "BrowserSearch"@[8] == 'e' && "BrowserSearch"@[9] == 'a' && "BrowserSearch"@[10] == 'r' && "BrowserSearch"@[11] == 'c' && "BrowserSearch"@[12] == 'h'
    &&& "XF86Search"@.len() == 10 && "XF86Search"@[0] == 'X' && "XF86Search"@[1] == 'F' && "XF86Search"@[2] == '8' && "XF86Search"@[3] == '6' && "XF86Search"@[4] == 'S' && "XF86Search"@[5] == 'e' && "XF86Search"@[6] == 'a' && "XF86Search"@[7] == 'r' && "XF86Search"@[8] == 'c' && "XF86Search"@[9] == 'h'
    &&& "BrowserFavorites"@.len() == 16 && "BrowserFavorites"@[0] == 'B' && "BrowserFavorites"@[1] == 'r' && "BrowserFavorites"@[2] == 'o' && "BrowserFavorites"@[3] == 'w' && "BrowserFavorites"@[4] == 's' && "BrowserFavorites"@[5] == 'e' && "BrowserFavorites"@[6] == 'r' && "BrowserFavorites"@[7] == 'F' && "BrowserFavorites"@[8] == 'a' && "BrowserFavorites"@[9] == 'v' && "BrowserFavorites"@[10] == 'o' && "BrowserFavorites"@[11] == 'r' && "BrowserFavorites"@[12] == 'i' && "BrowserFavorites"@[13] == 't' && "BrowserFavorites"@[14] == 'e' && "BrowserFavorites"@[15] == 's'
    &&& "XF86Favorites"@.len() == 13 && "XF86Favorites"@[0] == 'X' && "XF86Favorites"@[1] == 'F' && "XF86Favorites"@[2] == '8' && "XF86Favorites"@[3] == '6' && "XF86Favorites"@[4] == 'F' && "XF86Favorites"@[5] == 'a' && "XF86Favorites"@[6] == 'v' && "XF86Favorites"@[7] == 'o' && "XF86Favorites"@[8] == 'r' && "XF86Favorites"@[9] == 'i' && "XF86Favorites"@[10] == 't' && "XF86Favorites"@[11] == 'e' && "XF86Favorites"@[12] == 's'
    &&& "BrowserHome"@.len() == 11 && "BrowserHome"@[0] == 'B' && "BrowserHome"@[1] == 'r' && "BrowserHome"@[2] == 'o' && "BrowserHome"@[3] == 'w' && "BrowserHome"@[4] == 's' && "BrowserHome"@[5] == 'e' && "BrowserHome"@[6] == 'r' && "BrowserHome"@[7] == 'H' && "BrowserHome"@[8] == 'o' && "BrowserHome"@[9] == 'm' && "BrowserHome"@[10] == 'e'
    &&& "XF86HomePage"@.len() == 12 && "XF86HomePage"@[0] == 'X' && "XF86HomePage"@[1] == 'F' && "XF86HomePage"@[2] == '8' && "XF86HomePage"@[3] == '6' && "XF86HomePage"@[4] == 'H' && "XF86HomePage"@[5] == 'o' && "XF86HomePage"@[6] == 'm' && "XF86HomePage"@[7] == 'e' && "XF86HomePage"@[8] == 'P' && "XF86HomePage"@[9] == 'a' && "XF86HomePage"@[10] == 'g' && "XF86HomePage"@[11] == 'e'
    &&& "Semicolon"@.len() == 9 && "Semicolon"@[0] == 'S' && "Semicolon"@[1] == 'e' && "Semicolon"@[2] == 'm' && "Semicolon"@[3] == 'i' && "Semicolon"@[4] == 'c' && "Semicolon"@[5] == 'o' && "Semicolon"@[6] == 'l' && "Semicolon"@[7] == 'o' && "Semicolon"@[8] == 'n'
    &&& "semicolon"@.len() == 9 && "semicolon"@[0] == 's' && "semicolon"@[1] == 'e' && "semicolon"@[2] == 'm' && "semicolon"@[3] == 'i' && "semicolon"@[4] == 'c' && "semicolon"@[5] == 'o' && "semicolon"@[6] == 'l' && "semicolon"@[7] == 'o' && "semicolon"@[8] == 'n'
    &&& "Equal"@.len() == 5 && "Equal"@[0] == 'E' && "Equal"@[1] == 'q' && "Equal"@[2] == 'u' && "Equal"@[3] == 'a' && "Equal"@[4] == 'l'
    &&& "equal"@.len() == 5 && "equal"@[0] == 'e' && "equal"@[1] == 'q' && "equal"@[2] == 'u' && "equal"@[3] == 'a' && "equal"@[4] == 'l'
    &&& "Comma"@.len() == 5 && "Comma"@[0] == 'C' && "Comma"@[1] == 'o' && "Comma"@[2] == 'm' && "Comma"@[3] == 'm' && "Comma"@[4] == 'a'
    &&& "comma"@.len() == 5 && "comma"@[0] == 'c' && "comma"@[1] == 'o' && "comma"@[2] == 'm' && "comma"@[3] == 'm' && "comma"@[4] == 'a'
    &&& "Minus"@.len() == 5 && "Minus"@[0] == 'M' && "Minus"@[1] == 'i' && "Minus"@[2] == 'n' && "Minus"@[3] == 'u' && "Minus"@[4] == 's'
    &&& "minus"@.len() == 5 && "minus"@[0] == 'm' && "minus"@[1] == 'i' && "minus"@[2] == 'n' && "minus"@[3] == 'u' && "minus"@[4] == 's'
    &&& "Period"@.len() == 6 && "Period"@[0] == 'P' && "Period"@[1] == 'e' && "Period"@[2] == 'r' && "Period"@[3] == 'i' && "Period"@[4] == 'o' && "Period"@[5] == 'd'
    &&& "period"@.len() == 6 && "period"@[0] == 'p' && "period"@[1] == 'e' && "period"@[2] == 'r' && "period"@[3] == 'i' && "period"@[4] == 'o' && "period"@[5] == 'd'
    &&& "Slash"@.len() == 5 && "Slash"@[0] == 'S' && "Slash"@[1] == 'l' && "Slash"@[2] == 'a' && "Slash"@[3] == 's' && "Slash"@[4] == 'h'
    &&& "slash"@.len() == 5 && "slash"@[0] == 's' && "slash"@[1] == 'l' && "slash"@[2] == 'a' && "slash"@[3] == 's' && "slash"@[4] == 'h'
    &&& "Backquote"@.len() == 9 && "Backquote"@[0] == 'B' && "Backquote"@[1] == 'a' && "Backquote"@[2] == 'c' && "Backquote"@[3] == 'k' && "Backquote"@[4] == 'q' && "Backquote"@[5] == 'u' && "Backquote"@[6] == 'o' && "Backquote"@[7] == 't' && "Backquote"@[8] == 'e'
    &&& "Grave"@.len() == 5 && "Grave"@[0] == 'G' && "Grave"@[1] == 'r' && "Grave"@[2] == 'a' && "Grave"@[3] == 'v' && "Grave"@[4] == 'e'
    &&& "grave"@.len() == 5 && "grave"@[0] == 'g' && "grave"@[1] == 'r' && "grave"@[2] == 'a' && "grave"@[3] == 'v' && "grave"@[4] == 'e'
    &&& "BracketLeft"@.len() == 11 && "BracketLeft"@[0] == 'B' && "BracketLeft"@[1] == 'r' && "BracketLeft"@[2] == 'a' && "BracketLeft"@[3] == 'c' && "BracketLeft"@[4] == 'k' && "BracketLeft"@[5] == 'e' && "BracketLeft"@[6] == 't' && "BracketLeft"@[7] == 'L' && "BracketLeft"@[8] == 'e' && "BracketLeft"@[9] == 'f' && "BracketLeft"@[10] == 't'
    &&& "bracketleft"@.len() == 11 && "bracketleft"@[0] == 'b' && "bracketleft"@[1] == 'r' && "bracketleft"@[2] == 'a' && "bracketleft"@[3] == 'c' && "bracketleft"@[4] == 'k' && "bracketleft"@[5] == 'e' && "bracketleft"@[6] == 't' && "bracketleft"@[7] == 'l' && "bracketleft"@[8] == 'e' && "bracketleft"@[9] == 'f' && "bracketleft"@[10] == 't'
    &&& "Backslash"@.len() == 9 && "Backslash"@[0] == 'B' && "Backslash"@[1] == 'a' && "Backslash"@[2] == 'c' && "Backslash"@[3] == 'k' && "Backslash"@[4] == 's' && "Backslash"@[5] == 'l' && "Backslash"@[6] == 'a' && "Backslash"@[7] == 's' && "Backslash"@[8] == 'h'
    &&& "backslash"@.len() == 9 && "backslash"@[0] == 'b' && "backslash"@[1] == 'a' && "backslash"@[2] == 'c' && "backslash"@[3] == 'k' && "backslash"@[4] == 's' && "backslash"@[5] == 'l' && "backslash"@[6] == 'a' && "backslash"@[7] == 's' && "backslash"@[8] == 'h'
    &&& "BracketRight"@.len() == 12 && "BracketRight"@[0] == 'B' && "BracketRight"@[1] == 'r' && "BracketRight"@[2] == 'a' && "BracketRight"@[3] == 'c' && "BracketRight"@[4] == 'k' && "BracketRight"@[5] == 'e' && "BracketRight"@[6] == 't' && "BracketRight"@[7] == 'R' && "BracketRight"@[8] == 'i' && "BracketRight"@[9] == 'g' && "BracketRight"@[10] == 'h' && "BracketRight"@[11] == 't'
    &&& "bracketright"@.len() == 12 && "bracketright"@[0] == 'b' && "bracketright"@[1] == 'r' && "bracketright"@[2] == 'a' && "bracketright"@[3] == 'c' && "bracketright"@[4] == 'k' && "bracketright"@[5] == 'e' && "bracketright"@[6] == 't' && "bracketright"@[7] == 'r' && "bracketright"@[8] == 'i' && "bracketright"@[9] == 'g' && "bracketright"@[10] == 'h' && "bracketright"@[11] == 't'
    &&& "Quote"@.len() == 5 && "Quote"@[0] == 'Q' && "Quote"@[1] == 'u' && "Quote"@[2] == 'o' && "Quote"@[3] == 't' && "Quote"@[4] == 'e'
    &&& "apostrophe"@.len() == 10 && "apostrophe"@[0] == 'a' && "apostrophe"@[1] == 'p' && "apostrophe"@[2] == 'o' && "apostrophe"@[3] == 's' && "apostrophe"@[4] == 't' && "apostrophe"@[5] == 'r' && "apostrophe"@[6] == 'o' && "apostrophe"@[7] == 'p' && "apostrophe"@[8] == 'h' && "apostrophe"@[9] == 'e'
    &&& "Pause"@.len() == 5 && "Pause"@[0] == 'P' && "Pause"@[1] == 'a' && "Pause"@[2] == 'u' && "Pause"@[3] == 's' && "Pause"@[4] == 'e'
    &&& "Break"@.len() == 5 && "Break"@[0] == 'B' && "Break"@[1] == 'r' && "Break"@[2] == 'e' && "Break"@[3] == 'a' && "Break"@[4] == 'k'
    &&& "PrintScreen"@.len() == 11 && "PrintScreen"@[0] == 'P' && "PrintScreen"@[1] == 'r' && "PrintScreen"@[2] == 'i' && "PrintScreen"@[3] == 'n' && "PrintScreen"@[4] == 't' && "PrintScreen"@[5] == 'S' && "PrintScreen"@[6] == 'c' && "PrintScreen"@[7] == 'r' && "PrintScreen"@[8] == 'e' && "PrintScreen"@[9] == 'e' && "PrintScreen"@[10] == 'n'
    &&& "Snapshot"@.len() == 8 && "Snapshot"@[0] == 'S' && "Snapshot"@[1] == 'n' && "Snapshot"@[2] == 'a' && "Snapshot"@[3] == 'p' && "Snapshot"@[4] == 's' && "Snapshot"@[5] == 'h' && "Snapshot"@[6] == 'o' && "Snapshot"@[7] == 't'
    &&& "Print"@.len() == 5 && "Print"@[0] == 'P' && "Print"@[1] == 'r' && "Print"@[2] == 'i' && "Print"@[3] == 'n' && "Print"@[4] == 't'
    &&& "ContextMenu"@.len() == 11 && "ContextMenu"@[0] == 'C' && "ContextMenu"@[1] == 'o' && "ContextMenu"@[2] == 'n' && "ContextMenu"@[3] == 't' && "ContextMenu"@[4] == 'e' && "ContextMenu"@[5] == 'x' && "ContextMenu"@[6] == 't' && "ContextMenu"@[7] == 'M' && "ContextMenu"@[8] == 'e' && "ContextMenu"@[9] == 'n' && "ContextMenu"@[10] == 'u'
    &&& "Apps"@.len() == 4 && "Apps"@[0] == 'A' && "Apps"@[1] == 'p' && "Apps"@[2] == 'p' && "Apps"@[3] == 's'
    &&& "Menu"@.len() == 4 && "Menu"@[0] == 'M' && "Menu"@[1] == 'e' && "Menu"@[2] == 'n' && "Menu"@[3] == 'u'
    &&& "Sleep"@.len() == 5 && "Sleep"@[0] == 'S' && "Sleep"@[1] == 'l' && "Sleep"@[2] == 'e' && "Sleep"@[3] == 'e' && "Sleep"@[4] == 'p'
    &&& "XF86Sleep"@.len() == 9 && "XF86Sleep"@[0] == 'X' && "XF86Sleep"@[1] == 'F' && "XF86Sleep"@[2] == '8' && "XF86Sleep"@[3] == '6' && "XF86Sleep"@[4] == 'S' && "XF86Sleep"@[5] == 'l' && "XF86Sleep"@[6] == 'e' && "XF86Sleep"@[7] == 'e' && "XF86Sleep"@[8] == 'p'
    &&& "WakeUp"@.len() == 6 && "WakeUp"@[0] == 'W' && "WakeUp"@[1] == 'a' && "WakeUp"@[2] == 'k' && "WakeUp"@[3] == 'e' && "WakeUp"@[4] == 'U' && "WakeUp"@[5] == 'p'
    &&& "XF86WakeUp"@.len() == 10 && "XF86WakeUp"@[0] == 'X' && "XF86WakeUp"@[1] == 'F' && "XF86WakeUp"@[2] == '8' && "XF86WakeUp"@[3] == '6' && "XF86WakeUp"@[4] == 'W' && "XF86WakeUp"@[5] == 'a' && "XF86WakeUp"@[6] == 'k' && "XF86WakeUp"@[7] == 'e' && "XF86WakeUp"@[8] == 'U' && "XF86WakeUp"@[9] == 'p'
    &&& "IntlBackslash"@.len() == 13 && "IntlBackslash"@[0] == 'I' && "IntlBackslash"@[1] == 'n' && "IntlBackslash"@[2] == 't' && "IntlBackslash"@[3] == 'l' && "IntlBackslash"@[4] == 'B' && "IntlBackslash"@[5] == 'a' && "IntlBackslash"@[6] == 'c' && "IntlBackslash"@[7] == 'k' && "IntlBackslash"@[8] == 's' && "IntlBackslash"@[9] == 'l' && "IntlBackslash"@[10] == 'a' && "IntlBackslash"@[11] == 's' && "IntlBackslash"@[12] == 'h'
    &&& "IntlRo"@.len() == 6 && "IntlRo"@[0] == 'I' && "IntlRo"@[1] == 'n' && "IntlRo"@[2] == 't' && "IntlRo"@[3] == 'l' && "IntlRo"@[4] == 'R' && "IntlRo"@[5] == 'o'
    &&& "ro"@.len() == 2 && "ro"@[0] == 'r' && "ro"@[1] == 'o'
    &&& "IntlYen"@.len() == 7 && "IntlYen"@[0] == 'I' && "IntlYen"@[1] == 'n' && "IntlYen"@[2] == 't' && "IntlYen"@[3] == 'l' && "IntlYen"@[4] == 'Y' && "IntlYen"@[5] == 'e' && "IntlYen"@[6] == 'n'
    &&& "yen"@.len() == 3 && "yen"@[0] == 'y' && "yen"@[1] == 'e' && "yen"@[2] == 'n'
}

pub proof fn lemma_table_literals()
    ensures
        table_literals_known(),
{
    reveal_strlit("Mouse0");
    reveal_strlit("Button1");
    reveal_strlit("Mouse1");
    reveal_strlit("Middle");
    reveal_strlit("Button2");
    reveal_strlit("Mouse2");
    reveal_strlit("Button3");
    reveal_strlit("Mouse3");
    reveal_strlit("X1");
    reveal_strlit("Back");
    reveal_strlit("Button8");
    reveal_strlit("Mouse4");
    reveal_strlit("X2");
    reveal_strlit("Forward");
    reveal_strlit("Button9");
    reveal_strlit("WheelUp");
    reveal_strlit("WheelDown");
    reveal_strlit("WheelLeft");
    reveal_strlit("WheelRight");
    reveal_strlit("ShiftLeft");
    reveal_strlit("SHIFT");
    reveal_strlit("ShiftRight");
    reveal_strlit("Shift");
    reveal_strlit("ControlLeft");
    reveal_strlit("CTRL");
    reveal_strlit("ControlRight");
    reveal_strlit("Control");
    reveal_strlit("Ctrl");
    reveal_strlit("AltLeft");
    reveal_strlit("ALT");
    reveal_strlit("AltRight");
    reveal_strlit("Alt");
    reveal_strlit("MetaLeft");
    reveal_strlit("OSLeft");
    reveal_strlit("LOGO");
    reveal_strlit("MetaRight");
    reveal_strlit("OSRight");
    reveal_strlit("Meta");
    reveal_strlit("OS");
    reveal_strlit("Win");
    reveal_strlit("Super");
    reveal_strlit("KeyA");
    reveal_strlit("A");
    reveal_strlit("a");
    reveal_strlit("KeyB");
    reveal_strlit("B");
    reveal_strlit("b");
    reveal_strlit("KeyC");
    reveal_strlit("C");
    reveal_strlit("c");
    reveal_strlit("KeyD");
    reveal_strlit("D");
    reveal_strlit("d");
    reveal_strlit("KeyE");
    reveal_strlit("E");
    reveal_strlit("e");
    reveal_strlit("KeyF");
    reveal_strlit("F");
    reveal_strlit("f");
    reveal_strlit("KeyG");
    reveal_strlit("G");
    reveal_strlit("g");
    reveal_strlit("KeyH");
    reveal_strlit("H");
    reveal_strlit("h");
    reveal_strlit("KeyI");
    reveal_strlit("I");
    reveal_strlit("i");
    reveal_strlit("KeyJ");
    reveal_strlit("J");
    reveal_strlit("j");
    reveal_strlit("KeyK");
    reveal_strlit("K");
    reveal_strlit("k");
    reveal_strlit("KeyL");
    reveal_strlit("L");
    reveal_strlit("l");
    reveal_strlit("KeyM");
    reveal_strlit("M");
    reveal_strlit("m");
    reveal_strlit("KeyN");
    reveal_strlit("N");
    reveal_strlit("n");
    reveal_strlit("KeyO");
    reveal_strlit("O");
    reveal_strlit("o");
    reveal_strlit("KeyP");
    reveal_strlit("P");
    reveal_strlit("p");
    reveal_strlit("KeyQ");
    reveal_strlit("Q");
    reveal_strlit("q");
    reveal_strlit("KeyR");
    reveal_strlit("R");
    reveal_strlit("r");
    reveal_strlit("KeyS");
    reveal_strlit("S");
    reveal_strlit("s");
    reveal_strlit("KeyT");
    reveal_strlit("T");
    reveal_strlit("t");
    reveal_strlit("KeyU");
    reveal_strlit("U");
    reveal_strlit("u");
    reveal_strlit("KeyV");
    reveal_strlit("V");
    reveal_strlit("v");
    reveal_strlit("KeyW");
    reveal_strlit("W");
    reveal_strlit("w");
    reveal_strlit("KeyX");
    reveal_strlit("X");
    reveal_strlit("x");
    reveal_strlit("KeyY");
    reveal_strlit("Y");
    reveal_strlit("y");
    reveal_strlit("KeyZ");
    reveal_strlit("Z");
    reveal_strlit("z");
    reveal_strlit("Digit0");
    reveal_strlit("D0");
    reveal_strlit("0");
    reveal_strlit("Digit1");
    reveal_strlit("D1");
    reveal_strlit("1");
    reveal_strlit("Digit2");
    reveal_strlit("D2");
    reveal_strlit("2");
    reveal_strlit("Digit3");
    reveal_strlit("D3");
    reveal_strlit("3");
    reveal_strlit("Digit4");
    reveal_strlit("D4");
    reveal_strlit("4");
    reveal_strlit("Digit5");
    reveal_strlit("D5");
    reveal_strlit("5");
    reveal_strlit("Digit6");
    reveal_strlit("D6");
    reveal_strlit("6");
    reveal_strlit("Digit7");
    reveal_strlit("D7");
    reveal_strlit("7");
    reveal_strlit("Digit8");
    reveal_strlit("D8");
    reveal_strlit("8");
    reveal_strlit("Digit9");
    reveal_strlit("D9");
    reveal_strlit("9");
    reveal_strlit("F1");
    reveal_strlit("F2");
    reveal_strlit("F3");
    reveal_strlit("F4");
    reveal_strlit("F5");
    reveal_strlit("F6");
    reveal_strlit("F7");
    reveal_strlit("F8");
    reveal_strlit("F9");
    reveal_strlit("F10");
    reveal_strlit("F11");
    reveal_strlit("F12");
    reveal_strlit("F13");
    reveal_strlit("F14");
    reveal_strlit("F15");
    reveal_strlit("F16");
    reveal_strlit("F17");
    reveal_strlit("F18");
    reveal_strlit("F19");
    reveal_strlit("F20");
    reveal_strlit("F21");
    reveal_strlit("F22");
    reveal_strlit("F23");
    reveal_strlit("F24");
    reveal_strlit("ArrowUp");
    reveal_strlit("Up");
    reveal_strlit("ArrowDown");
    reveal_strlit("Down");
    reveal_strlit("ArrowLeft");
    reveal_strlit("Left");
    reveal_strlit("ArrowRight");
    reveal_strlit("Right");
    reveal_strlit("Home");
    reveal_strlit("End");
    reveal_strlit("PageUp");
    reveal_strlit("Prior");
    reveal_strlit("PageDown");
    reveal_strlit("Next");
    reveal_strlit("Insert");
    reveal_strlit("Delete");
    reveal_strlit("Enter");
    reveal_strlit("Return");
    reveal_strlit("Backspace");
    reveal_strlit("BackSpace");
    reveal_strlit("Tab");
    reveal_strlit("Escape");
    reveal_strlit("Esc");
    reveal_strlit("Space");
    reveal_strlit("space");
    reveal_strlit("CapsLock");
    reveal_strlit("Caps_Lock");
    reveal_strlit("NumLock");
    reveal_strlit("Num_Lock");
    reveal_strlit("ScrollLock");
    reveal_strlit("Scroll_Lock");
    reveal_strlit("Numpad0");
    reveal_strlit("Num0");
    reveal_strlit("KP_0");
    reveal_strlit("Numpad1");
    reveal_strlit("Num1");
    reveal_strlit("KP_1");
    reveal_strlit("Numpad2");
    reveal_strlit("Num2");
    reveal_strlit("KP_2");
    reveal_strlit("Numpad3");
    reveal_strlit("Num3");
    reveal_strlit("KP_3");
    reveal_strlit("Numpad4");
    reveal_strlit("Num4");
    reveal_strlit("KP_4");
    reveal_strlit("Numpad5");
    reveal_strlit("Num5");
    reveal_strlit("KP_5");
    reveal_strlit("Numpad6");
    reveal_strlit("Num6");
    reveal_strlit("KP_6");
    reveal_strlit("Numpad7");
    reveal_strlit("Num7");
    reveal_strlit("KP_7");
    reveal_strlit("Numpad8");
    reveal_strlit("Num8");
    reveal_strlit("KP_8");
    reveal_strlit("Numpad9");
    reveal_strlit("Num9");
    reveal_strlit("KP_9");
    reveal_strlit("NumpadMultiply");
    reveal_strlit("NumMultiply");
    reveal_strlit("KP_Multiply");
    reveal_strlit("NumpadAdd");
    reveal_strlit("NumAdd");
    reveal_strlit("KP_Add");
    reveal_strlit("NumpadSubtract");
    reveal_strlit("NumSubtract");
    reveal_strlit("KP_Subtract");
    reveal_strlit("NumpadDecimal");
    reveal_strlit("NumDecimal");
    reveal_strlit("KP_Decimal");
    reveal_strlit("NumpadDivide");
    reveal_strlit("NumDivide");
    reveal_strlit("KP_Divide");
    reveal_strlit("NumpadEnter");
    reveal_strlit("NumEnter");
    reveal_strlit("KP_Enter");
    reveal_strlit("NumpadSeparator");
    reveal_strlit("NumSeparator");
    reveal_strlit("KP_Separator");
    reveal_strlit("AudioVolumeMute");
    reveal_strlit("VolumeMute");
    reveal_strlit("XF86AudioMute");
    reveal_strlit("AudioVolumeDown");
    reveal_strlit("VolumeDown");
    reveal_strlit("XF86AudioLowerVolume");
    reveal_strlit("AudioVolumeUp");
    reveal_strlit("VolumeUp");
    reveal_strlit("XF86AudioRaiseVolume");
    reveal_strlit("MediaPlayPause");
    reveal_strlit("XF86AudioPlay");
    reveal_strlit("MediaStop");
    reveal_strlit("XF86AudioStop");
    reveal_strlit("MediaTrackNext");
    reveal_strlit("MediaNext");
    reveal_strlit("XF86AudioNext");
    reveal_strlit("MediaTrackPrevious");
    reveal_strlit("MediaPrevious");
    reveal_strlit("XF86AudioPrev");
    reveal_strlit("MediaSelect");
    reveal_strlit("XF86AudioMedia");
    reveal_strlit("LaunchMail");
    reveal_strlit("XF86Mail");
    reveal_strlit("LaunchApp1");
    reveal_strlit("XF86Launch1");
    reveal_strlit("LaunchApp2");
    reveal_strlit("XF86Launch2");
    reveal_strlit("BrowserBack");
    reveal_strlit("XF86Back");
    reveal_strlit("BrowserForward");
    reveal_strlit("XF86Forward");
    reveal_strlit("BrowserRefresh");
    reveal_strlit("XF86Refresh");
    reveal_strlit("BrowserStop");
    reveal_strlit("XF86Stop");
    reveal_strlit("BrowserSearch");
    reveal_strlit("XF86Search");
    reveal_strlit("BrowserFavorites");
    reveal_strlit("XF86Favorites");
    reveal_strlit("BrowserHome");
    reveal_strlit("XF86HomePage");
    reveal_strlit("Semicolon");
    reveal_strlit("semicolon");
    reveal_strlit("Equal");
    reveal_strlit("equal");
    reveal_strlit("Comma");
    reveal_strlit("comma");
    reveal_strlit("Minus");
    reveal_strlit("minus");
    reveal_strlit("Period");
    reveal_strlit("period");
    reveal_strlit("Slash");
    reveal_strlit("slash");
    reveal_strlit("Backquote");
    reveal_strlit("Grave");
    reveal_strlit("grave");
    reveal_strlit("BracketLeft");
    reveal_strlit("bracketleft");
    reveal_strlit("Backslash");
    reveal_strlit("backslash");
    reveal_strlit("BracketRight");
    reveal_strlit("bracketright");
    reveal_strlit("Quote");
    reveal_strlit("apostrophe");
    reveal_strlit("Pause");
    reveal_strlit("Break");
    reveal_strlit("PrintScreen");
    reveal_strlit("Snapshot");
    reveal_strlit("Print");
    reveal_strlit("ContextMenu");
    reveal_strlit("Apps");
    reveal_strlit("Menu");
    reveal_strlit("Sleep");
    reveal_strlit("XF86Sleep");
    reveal_strlit("WakeUp");
    reveal_strlit("XF86WakeUp");
    reveal_strlit("IntlBackslash");
    reveal_strlit("IntlRo");
    reveal_strlit("ro");
    reveal_strlit("IntlYen");
    reveal_strlit("yen");
}

/// Below `VK_`, a code is looked up by name.
pub proof fn lemma_named_code(code: Seq<char>)
    requires
        !(code.len() >= 3 && code[0] == 'V' && code[1] == 'K' && code[2] == '_'),
    ensures
        js_input(code) == js_named_input(code),
{
    if code.len() >= 3 && code.subrange(0, 3) == "VK_"@ {
        reveal_strlit("VK_");
        assert(code.subrange(0, 3)[0] == code[0]);
        assert(code.subrange(0, 3)[1] == code[1]);
        assert(code.subrange(0, 3)[2] == code[2]);
        assert("VK_"@[0] == 'V' && "VK_"@[1] == 'K' && "VK_"@[2] == '_');
    }
}

/// A letter key can be written `Key` and the letter, or the letter alone; both
/// name the key whose virtual-key code is the letter's code and whose XKB name
/// is the letter in lowercase.
pub proof fn lemma_letter_spellings(c: char)
    requires
        'A' <= c <= 'Z',
    ensures
        js_input(seq!['K', 'e', 'y', c]) == js_input(seq![c]),
        (js_input(seq![c]) matches Some(OsInput::Key(vk, name)) && vk == c as u16 && name@ == seq![ascii_lower(c)]),
{
    lemma_table_literals();
    if c == 'A' {
        assert(seq!['K', 'e', 'y', c] =~= "KeyA"@);
        assert(seq![c] =~= "A"@);
        lemma_named_code(seq!['K', 'e', 'y', c]);
        lemma_named_code(seq![c]);
    }
    else if c == 'B' {
        assert(seq!['K', 'e', 'y', c] =~= "KeyB"@);
        assert(seq![c] =~= "B"@);
        lemma_named_code(seq!['K', 'e', 'y', c]);
        lemma_named_code(seq![c]);
    }
    else if c == 'C' {
        assert(seq!['K', 'e', 'y', c] =~= "KeyC"@);
        assert(seq![c] =~= "C"@);
        lemma_named_code(seq!['K', 'e', 'y', c]);
        lemma_named_code(seq![c]);
    }
    else if c == 'D' {
        assert(seq!['K', 'e', 'y', c] =~= "KeyD"@);
        assert(seq![c] =~= "D"@);
        lemma_named_code(seq!['K', 'e', 'y', c]);
        lemma_named_code(seq![c]);
    }
    else if c == 'E' {
        assert(seq!['K', 'e', 'y', c] =~= "KeyE"@);
        assert(seq![c] =~= "E"@);
        lemma_named_code(seq!['K', 'e', 'y', c]);
        lemma_named_code(seq![c]);
    }
    else if c == 'F' {
        assert(seq!['K', 'e', 'y', c] =~= "KeyF"@);
        assert(seq![c] =~= "F"@);
        lemma_named_code(seq!['K', 'e', 'y', c]);
        lemma_named_code(seq![c]);
    }
    else if c == 'G' {
        assert(seq!['K', 'e', 'y', c] =~= "KeyG"@);
        assert(seq![c] =~= "G"@);
        lemma_named_code(seq!['K', 'e', 'y', c]);
        lemma_named_code(seq![c]);
    }
    else if c == 'H' {
        assert(seq!['K', 'e', 'y', c] =~= "KeyH"@);
        assert(seq![c] =~= "H"@);
        lemma_named_code(seq!['K', 'e', 'y', c]);
        lemma_named_code(seq![c]);
    }
    else if c == 'I' {
        assert(seq!['K', 'e', 'y', c] =~= "KeyI"@);
        assert(seq![c] =~= "I"@);
        lemma_named_code(seq!['K', 'e', 'y', c]);
        lemma_named_code(seq![c]);
    }
    else if c == 'J' {
        assert(seq!['K', 'e', 'y', c] =~= "KeyJ"@);
        assert(seq![c] =~= "J"@);
        lemma_named_code(seq!['K', 'e', 'y', c]);
        lemma_named_code(seq![c]);
    }
    else if c == 'K' {
        assert(seq!['K', 'e', 'y', c] =~= "KeyK"@);
        assert(seq![c] =~= "K"@);
        lemma_named_code(seq!['K', 'e', 'y', c]);
        lemma_named_code(seq![c]);
    }
    else if c == 'L' {
        assert(seq!['K', 'e', 'y', c] =~= "KeyL"@);
        assert(seq![c] =~= "L"@);
        lemma_named_code(seq!['K', 'e', 'y', c]);
        lemma_named_code(seq![c]);
    }
    else if c == 'M' {
        assert(seq!['K', 'e', 'y', c] =~= "KeyM"@);
        assert(seq![c] =~= "M"@);
        lemma_named_code(seq!['K', 'e', 'y', c]);
        lemma_named_code(seq![c]);
    }
    else if c == 'N' {
        assert(seq!['K', 'e', 'y', c] =~= "KeyN"@);
        assert(seq![c] =~= "N"@);
        lemma_named_code(seq!['K', 'e', 'y', c]);
        lemma_named_code(seq![c]);
    }
    else if c == 'O' {
        assert(seq!['K', 'e', 'y', c] =~= "KeyO"@);
        assert(seq![c] =~= "O"@);
        lemma_named_code(seq!['K', 'e', 'y', c]);
        lemma_named_code(seq![c]);
    }
    else if c == 'P' {
        assert(seq!['K', 'e', 'y', c] =~= "KeyP"@);
        assert(seq![c] =~= "P"@);
        lemma_named_code(seq!['K', 'e', 'y', c]);
        lemma_named_code(seq![c]);
    }
    else if c == 'Q' {
        assert(seq!['K', 'e', 'y', c] =~= "KeyQ"@);
        assert(seq![c] =~= "Q"@);
        lemma_named_code(seq!['K', 'e', 'y', c]);
        lemma_named_code(seq![c]);
    }
    else if c == 'R' {
        assert(seq!['K', 'e', 'y', c] =~= "KeyR"@);
        assert(seq![c] =~= "R"@);
        lemma_named_code(seq!['K', 'e', 'y', c]);
        lemma_named_code(seq![c]);
    }
    else if c == 'S' {
        assert(seq!['K', 'e', 'y', c] =~= "KeyS"@);
        assert(seq![c] =~= "S"@);
        lemma_named_code(seq!['K', 'e', 'y', c]);
        lemma_named_code(seq![c]);
    }
    else if c == 'T' {
        assert(seq!['K', 'e', 'y', c] =~= "KeyT"@);
        assert(seq![c] =~= "T"@);
        lemma_named_code(seq!['K', 'e', 'y', c]);
        lemma_named_code(seq![c]);
    }
    else if c == 'U' {
        assert(seq!['K', 'e', 'y', c] =~= "KeyU"@);
        assert(seq![c] =~= "U"@);
        lemma_named_code(seq!['K', 'e', 'y', c]);
        lemma_named_code(seq![c]);
    }
    else if c == 'V' {
        assert(seq!['K', 'e', 'y', c] =~= "KeyV"@);
        assert(seq![c] =~= "V"@);
        lemma_named_code(seq!['K', 'e', 'y', c]);
        lemma_named_code(seq![c]);
    }
    else if c == 'W' {
        assert(seq!['K', 'e', 'y', c] =~= "KeyW"@);
        assert(seq![c] =~= "W"@);
        lemma_named_code(seq!['K', 'e', 'y', c]);
        lemma_named_code(seq![c]);
    }
    else if c == 'X' {
        assert(seq!['K', 'e', 'y', c] =~= "KeyX"@);
        assert(seq![c] =~= "X"@);
        lemma_named_code(seq!['K', 'e', 'y', c]);
        lemma_named_code(seq![c]);
    }
    else if c == 'Y' {
        assert(seq!['K', 'e', 'y', c] =~= "KeyY"@);
        assert(seq![c] =~= "Y"@);
        lemma_named_code(seq!['K', 'e', 'y', c]);
        lemma_named_code(seq![c]);
    }
    else if c == 'Z' {
        assert(seq!['K', 'e', 'y', c] =~= "KeyZ"@);
        assert(seq![c] =~= "Z"@);
        lemma_named_code(seq!['K', 'e', 'y', c]);
        lemma_named_code(seq![c]);
    }
}

/// The decimal digit of a number below ten.
pub open spec fn digit_char(n: nat) -> char {
    if n == 0 { '0' }
    else if n == 1 { '1' }
    else if n == 2 { '2' }
    else if n == 3 { '3' }
    else if n == 4 { '4' }
    else if n == 5 { '5' }
    else if n == 6 { '6' }
    else if n == 7 { '7' }
    else if n == 8 { '8' }
    else { '9' }
}

/// A number in decimal, without leading zeros.
pub open spec fn decimal_text(n: nat) -> Seq<char>
    decreases n,
{
    if n < 10 {
        seq![digit_char(n)]
    } else {
        decimal_text(n / 10).push(digit_char(n % 10))
    }
}

/// A digit key can be written `Digit` and the digit, or `D` and the digit;
/// both name the key whose virtual-key code is the digit's code and whose XKB
/// name is the digit.
pub proof fn lemma_digit_spellings(n: u16)
    requires
        n <= 9,
    ensures
        js_input(seq!['D', 'i', 'g', 'i', 't', digit_char(n as nat)]) == js_input(seq!['D', digit_char(n as nat)]),
        (js_input(seq!['D', digit_char(n as nat)]) matches Some(OsInput::Key(vk, name)) && vk == 0x30 + n && name@ == seq![digit_char(n as nat)]),
{
    lemma_table_literals();
    if n == 0 {
        assert(seq!['D', 'i', 'g', 'i', 't', digit_char(n as nat)] =~= "Digit0"@);
        assert(seq!['D', digit_char(n as nat)] =~= "D0"@);
        assert(seq![digit_char(n as nat)] =~= "0"@);
        lemma_named_code(seq!['D', 'i', 'g', 'i', 't', digit_char(n as nat)]);
        lemma_named_code(seq!['D', digit_char(n as nat)]);
    } else if n == 1 {
        assert(seq!['D', 'i', 'g', 'i', 't', digit_char(n as nat)] =~= "Digit1"@);
        assert(seq!['D', digit_char(n as nat)] =~= "D1"@);
        assert(seq![digit_char(n as nat)] =~= "1"@);
        lemma_named_code(seq!['D', 'i', 'g', 'i', 't', digit_char(n as nat)]);
        lemma_named_code(seq!['D', digit_char(n as nat)]);
    } else if n == 2 {
        assert(seq!['D', 'i', 'g', 'i', 't', digit_char(n as nat)] =~= "Digit2"@);
        assert(seq!['D', digit_char(n as nat)] =~= "D2"@);
        assert(seq![digit_char(n as nat)] =~= "2"@);
        lemma_named_code(seq!['D', 'i', 'g', 'i', 't', digit_char(n as nat)]);
        lemma_named_code(seq!['D', digit_char(n as nat)]);
    } else if n == 3 {
        assert(seq!['D', 'i', 'g', 'i', 't', digit_char(n as nat)] =~= "Digit3"@);
        assert(seq!['D', digit_char(n as nat)] =~= "D3"@);
        assert(seq![digit_char(n as nat)] =~= "3"@);
        lemma_named_code(seq!['D', 'i', 'g', 'i', 't', digit_char(n as nat)]);
        lemma_named_code(seq!['D', digit_char(n as nat)]);
    } else if n == 4 {
        assert(seq!['D', 'i', 'g', 'i', 't', digit_char(n as nat)] =~= "Digit4"@);
        assert(seq!['D', digit_char(n as nat)] =~= "D4"@);
        assert(seq![digit_char(n as nat)] =~= "4"@);
        lemma_named_code(seq!['D', 'i', 'g', 'i', 't', digit_char(n as nat)]);
        lemma_named_code(seq!['D', digit_char(n as nat)]);
    } else if n == 5 {
        assert(seq!['D', 'i', 'g', 'i', 't', digit_char(n as nat)] =~= "Digit5"@);
        assert(seq!['D', digit_char(n as nat)] =~= "D5"@);
        assert(seq![digit_char(n as nat)] =~= "5"@);
        lemma_named_code(seq!['D', 'i', 'g', 'i', 't', digit_char(n as nat)]);
        lemma_named_code(seq!['D', digit_char(n as nat)]);
    } else if n == 6 {
        assert(seq!['D', 'i', 'g', 'i', 't', digit_char(n as nat)] =~= "Digit6"@);
        assert(seq!['D', digit_char(n as nat)] =~= "D6"@);
        assert(seq![digit_char(n as nat)] =~= "6"@);
        lemma_named_code(seq!['D', 'i', 'g', 'i', 't', digit_char(n as nat)]);
        lemma_named_code(seq!['D', digit_char(n as nat)]);
    } else if n == 7 {
        assert(seq!['D', 'i', 'g', 'i', 't', digit_char(n as nat)] =~= "Digit7"@);
        assert(seq!['D', digit_char(n as nat)] =~= "D7"@);
        assert(seq![digit_char(n as nat)] =~= "7"@);
        lemma_named_code(seq!['D', 'i', 'g', 'i', 't', digit_char(n as nat)]);
        lemma_named_code(seq!['D', digit_char(n as nat)]);
    } else if n == 8 {
        assert(seq!['D', 'i', 'g', 'i', 't', digit_char(n as nat)] =~= "Digit8"@);
        assert(seq!['D', digit_char(n as nat)] =~= "D8"@);
        assert(seq![digit_char(n as nat)] =~= "8"@);
        lemma_named_code(seq!['D', 'i', 'g', 'i', 't', digit_char(n as nat)]);
        lemma_named_code(seq!['D', digit_char(n as nat)]);
    } else if n == 9 {
        assert(seq!['D', 'i', 'g', 'i', 't', digit_char(n as nat)] =~= "Digit9"@);
        assert(seq!['D', digit_char(n as nat)] =~= "D9"@);
        assert(seq![digit_char(n as nat)] =~= "9"@);
        lemma_named_code(seq!['D', 'i', 'g', 'i', 't', digit_char(n as nat)]);
        lemma_named_code(seq!['D', digit_char(n as nat)]);
    }
}

/// The function keys `F1` to `F24` name the keys with the virtual-key codes
/// 0x70 to 0x87, under the same XKB names.
pub proof fn lemma_function_keys(n: u16)
    requires
        1 <= n <= 24,
    ensures
        (js_input(seq!['F'] + decimal_text(n as nat)) matches Some(OsInput::Key(vk, name)) && vk == 0x6F + n && name@ == seq!['F'] + decimal_text(n as nat)),
{
    lemma_table_literals();
    reveal_with_fuel(decimal_text, 2);
    if n == 1 {
        assert(seq!['F'] + decimal_text(n as nat) =~= "F1"@);
        lemma_named_code(seq!['F'] + decimal_text(n as nat));
    } else if n == 2 {
        assert(seq!['F'] + decimal_text(n as nat) =~= "F2"@);
        lemma_named_code(seq!['F'] + decimal_text(n as nat));
    } else if n == 3 {
        assert(seq!['F'] + decimal_text(n as nat) =~= "F3"@);
        lemma_named_code(seq!['F'] + decimal_text(n as nat));
    } else if n == 4 {
        assert(seq!['F'] + decimal_text(n as nat) =~= "F4"@);
        lemma_named_code(seq!['F'] + decimal_text(n as nat));
    } else if n == 5 {
        assert(seq!['F'] + decimal_text(n as nat) =~= "F5"@);
        lemma_named_code(seq!['F'] + decimal_text(n as nat));
    } else if n == 6 {
        assert(seq!['F'] + decimal_text(n as nat) =~= "F6"@);
        lemma_named_code(seq!['F'] + decimal_text(n as nat));
    } else if n == 7 {
        assert(seq!['F'] + decimal_text(n as nat) =~= "F7"@);
        lemma_named_code(seq!['F'] + decimal_text(n as nat));
    } else if n == 8 {
        assert(seq!['F'] + decimal_text(n as nat) =~= "F8"@);
        lemma_named_code(seq!['F'] + decimal_text(n as nat));
    } else if n == 9 {
        assert(seq!['F'] + decimal_text(n as nat) =~= "F9"@);
        lemma_named_code(seq!['F'] + decimal_text(n as nat));
    } else if n == 10 {
        assert(seq!['F'] + decimal_text(n as nat) =~= "F10"@);
        lemma_named_code(seq!['F'] + decimal_text(n as nat));
    } else if n == 11 {
        assert(seq!['F'] + decimal_text(n as nat) =~= "F11"@);
        lemma_named_code(seq!['F'] + decimal_text(n as nat));
    } else if n == 12 {
        assert(seq!['F'] + decimal_text(n as nat) =~= "F12"@);
        lemma_named_code(seq!['F'] + decimal_text(n as nat));
    } else if n == 13 {
        assert(seq!['F'] + decimal_text(n as nat) =~= "F13"@);
        lemma_named_code(seq!['F'] + decimal_text(n as nat));
    } else if n == 14 {
        assert(seq!['F'] + decimal_text(n as nat) =~= "F14"@);
        lemma_named_code(seq!['F'] + decimal_text(n as nat));
    } else if n == 15 {
        assert(seq!['F'] + decimal_text(n as nat) =~= "F15"@);
        lemma_named_code(seq!['F'] + decimal_text(n as nat));
    } else if n == 16 {
        assert(seq!['F'] + decimal_text(n as nat) =~= "F16"@);
        lemma_named_code(seq!['F'] + decimal_text(n as nat));
    } else if n == 17 {
        assert(seq!['F'] + decimal_text(n as nat) =~= "F17"@);
        lemma_named_code(seq!['F'] + decimal_text(n as nat));
    } else if n == 18 {
        assert(seq!['F'] + decimal_text(n as nat) =~= "F18"@);
        lemma_named_code(seq!['F'] + decimal_text(n as nat));
    } else if n == 19 {
        assert(seq!['F'] + decimal_text(n as nat) =~= "F19"@);
        lemma_named_code(seq!['F'] + decimal_text(n as nat));
    } else if n == 20 {
        assert(seq!['F'] + decimal_text(n as nat) =~= "F20"@);
        lemma_named_code(seq!['F'] + decimal_text(n as nat));
    } else if n == 21 {
        assert(seq!['F'] + decimal_text(n as nat) =~= "F21"@);
        lemma_named_code(seq!['F'] + decimal_text(n as nat));
    } else if n == 22 {
        assert(seq!['F'] + decimal_text(n as nat) =~= "F22"@);
        lemma_named_code(seq!['F'] + decimal_text(n as nat));
    } else if n == 23 {
        assert(seq!['F'] + decimal_text(n as nat) =~= "F23"@);
        lemma_named_code(seq!['F'] + decimal_text(n as nat));
    } else if n == 24 {
        assert(seq!['F'] + decimal_text(n as nat) =~= "F24"@);
        lemma_named_code(seq!['F'] + decimal_text(n as nat));
    }
}

/// A key of the numeric pad can be written `Numpad` and the digit, or `Num`
/// and the digit; both name the key with the virtual-key code 0x60 plus the
/// digit, whose XKB name is `KP_` and the digit.
pub proof fn lemma_numpad_spellings(n: u16)
    requires
        n <= 9,
    ensures
        js_input(seq!['N', 'u', 'm', 'p', 'a', 'd', digit_char(n as nat)]) == js_input(seq!['N', 'u', 'm', digit_char(n as nat)]),
        (js_input(seq!['N', 'u', 'm', digit_char(n as nat)]) matches Some(OsInput::Key(vk, name)) && vk == 0x60 + n && name@ == seq!['K', 'P', '_', digit_char(n as nat)]),
{
    lemma_table_literals();
    if n == 0 {
        assert(seq!['N', 'u', 'm', 'p', 'a', 'd', digit_char(n as nat)] =~= "Numpad0"@);
        assert(seq!['N', 'u', 'm', digit_char(n as nat)] =~= "Num0"@);
        assert(seq!['K', 'P', '_', digit_char(n as nat)] =~= "KP_0"@);
        lemma_named_code(seq!['N', 'u', 'm', 'p', 'a', 'd', digit_char(n as nat)]);
        lemma_named_code(seq!['N', 'u', 'm', digit_char(n as nat)]);
    } else if n == 1 {
        assert(seq!['N', 'u', 'm', 'p', 'a', 'd', digit_char(n as nat)] =~= "Numpad1"@);
        assert(seq!['N', 'u', 'm', digit_char(n as nat)] =~= "Num1"@);
        assert(seq!['K', 'P', '_', digit_char(n as nat)] =~= "KP_1"@);
        lemma_named_code(seq!['N', 'u', 'm', 'p', 'a', 'd', digit_char(n as nat)]);
        lemma_named_code(seq!['N', 'u', 'm', digit_char(n as nat)]);
    } else if n == 2 {
        assert(seq!['N', 'u', 'm', 'p', 'a', 'd', digit_char(n as nat)] =~= "Numpad2"@);
        assert(seq!['N', 'u', 'm', digit_char(n as nat)] =~= "Num2"@);
        assert(seq!['K', 'P', '_', digit_char(n as nat)] =~= "KP_2"@);
        lemma_named_code(seq!['N', 'u', 'm', 'p', 'a', 'd', digit_char(n as nat)]);
        lemma_named_code(seq!['N', 'u', 'm', digit_char(n as nat)]);
    } else if n == 3 {
        assert(seq!['N', 'u', 'm', 'p', 'a', 'd', digit_char(n as nat)] =~= "Numpad3"@);
        assert(seq!['N', 'u', 'm', digit_char(n as nat)] =~= "Num3"@);
        assert(seq!['K', 'P', '_', digit_char(n as nat)] =~= "KP_3"@);
        lemma_named_code(seq!['N', 'u', 'm', 'p', 'a', 'd', digit_char(n as nat)]);
        lemma_named_code(seq!['N', 'u', 'm', digit_char(n as nat)]);
    } else if n == 4 {
        assert(seq!['N', 'u', 'm', 'p', 'a', 'd', digit_char(n as nat)] =~= "Numpad4"@);
        assert(seq!['N', 'u', 'm', digit_char(n as nat)] =~= "Num4"@);
        assert(seq!['K', 'P', '_', digit_char(n as nat)] =~= "KP_4"@);
        lemma_named_code(seq!['N', 'u', 'm', 'p', 'a', 'd', digit_char(n as nat)]);
        lemma_named_code(seq!['N', 'u', 'm', digit_char(n as nat)]);
    } else if n == 5 {
        assert(seq!['N', 'u', 'm', 'p', 'a', 'd', digit_char(n as nat)] =~= "Numpad5"@);
        assert(seq!['N', 'u', 'm', digit_char(n as nat)] =~= "Num5"@);
        assert(seq!['K', 'P', '_', digit_char(n as nat)] =~= "KP_5"@);
        lemma_named_code(seq!['N', 'u', 'm', 'p', 'a', 'd', digit_char(n as nat)]);
        lemma_named_code(seq!['N', 'u', 'm', digit_char(n as nat)]);
    } else if n == 6 {
        assert(seq!['N', 'u', 'm', 'p', 'a', 'd', digit_char(n as nat)] =~= "Numpad6"@);
        assert(seq!['N', 'u', 'm', digit_char(n as nat)] =~= "Num6"@);
        assert(seq!['K', 'P', '_', digit_char(n as nat)] =~= "KP_6"@);
        lemma_named_code(seq!['N', 'u', 'm', 'p', 'a', 'd', digit_char(n as nat)]);
        lemma_named_code(seq!['N', 'u', 'm', digit_char(n as nat)]);
    } else if n == 7 {
        assert(seq!['N', 'u', 'm', 'p', 'a', 'd', digit_char(n as nat)] =~= "Numpad7"@);
        assert(seq!['N', 'u', 'm', digit_char(n as nat)] =~= "Num7"@);
        assert(seq!['K', 'P', '_', digit_char(n as nat)] =~= "KP_7"@);
        lemma_named_code(seq!['N', 'u', 'm', 'p', 'a', 'd', digit_char(n as nat)]);
        lemma_named_code(seq!['N', 'u', 'm', digit_char(n as nat)]);
    } else if n == 8 {
        assert(seq!['N', 'u', 'm', 'p', 'a', 'd', digit_char(n as nat)] =~= "Numpad8"@);
        assert(seq!['N', 'u', 'm', digit_char(n as nat)] =~= "Num8"@);
        assert(seq!['K', 'P', '_', digit_char(n as nat)] =~= "KP_8"@);
        lemma_named_code(seq!['N', 'u', 'm', 'p', 'a', 'd', digit_char(n as nat)]);
        lemma_named_code(seq!['N', 'u', 'm', digit_char(n as nat)]);
    } else if n == 9 {
        assert(seq!['N', 'u', 'm', 'p', 'a', 'd', digit_char(n as nat)] =~= "Numpad9"@);
        assert(seq!['N', 'u', 'm', digit_char(n as nat)] =~= "Num9"@);
        assert(seq!['K', 'P', '_', digit_char(n as nat)] =~= "KP_9"@);
        lemma_named_code(seq!['N', 'u', 'm', 'p', 'a', 'd', digit_char(n as nat)]);
        lemma_named_code(seq!['N', 'u', 'm', digit_char(n as nat)]);
    }
}

/// The key that a named code spells: the first of the codes that name the same
/// input (`KeyA` for `A`, `MediaTrackPrevious` for `MediaPrevious`, ...), or
/// none for a code that names nothing.
pub open spec fn key_class(code: Seq<char>) -> Option<Seq<char>> {
    if code == "Mouse0"@ {
        Some("Mouse0"@)
    } else if code == "Mouse1"@ || code == "Middle"@ {
        Some("Mouse1"@)
    } else if code == "Mouse2"@ {
        Some("Mouse2"@)
    } else if code == "Mouse3"@ || code == "X1"@ || code == "Back"@ {
        Some("Mouse3"@)
    } else if code == "Mouse4"@ || code == "X2"@ || code == "Forward"@ {
        Some("Mouse4"@)
    } else if code == "WheelUp"@ {
        Some("WheelUp"@)
    } else if code == "WheelDown"@ {
        Some("WheelDown"@)
    } else if code == "WheelLeft"@ {
        Some("WheelLeft"@)
    } else if code == "WheelRight"@ {
        Some("WheelRight"@)
    } else if code == "ShiftLeft"@ {
        Some("ShiftLeft"@)
    } else if code == "ShiftRight"@ {
        Some("ShiftRight"@)
    } else if code == "Shift"@ {
        Some("Shift"@)
    } else if code == "ControlLeft"@ {
        Some("ControlLeft"@)
    } else if code == "ControlRight"@ {
        Some("ControlRight"@)
    } else if code == "Control"@ || code == "Ctrl"@ {
        Some("Control"@)
    } else if code == "AltLeft"@ {
        Some("AltLeft"@)
    } else if code == "AltRight"@ {
        Some("AltRight"@)
    } else if code == "Alt"@ {
        Some("Alt"@)
    } else if code == "MetaLeft"@ || code == "OSLeft"@ || code == "Meta"@ || code == "OS"@ || code == "Win"@ || code == "Super"@ {
        Some("MetaLeft"@)
    } else if code == "MetaRight"@ || code == "OSRight"@ {
        Some("MetaRight"@)
    } else if code == "KeyA"@ || code == "A"@ {
        Some("KeyA"@)
    } else if code == "KeyB"@ || code == "B"@ {
        Some("KeyB"@)
    } else if code == "KeyC"@ || code == "C"@ {
        Some("KeyC"@)
    } else if code == "KeyD"@ || code == "D"@ {
        Some("KeyD"@)
    } else if code == "KeyE"@ || code == "E"@ {
        Some("KeyE"@)
    } else if code == "KeyF"@ || code == "F"@ {
        Some("KeyF"@)
    } else if code == "KeyG"@ || code == "G"@ {
        Some("KeyG"@)
    } else if code == "KeyH"@ || code == "H"@ {
        Some("KeyH"@)
    } else if code == "KeyI"@ || code == "I"@ {
        Some("KeyI"@)
    } else if code == "KeyJ"@ || code == "J"@ {
        Some("KeyJ"@)
    } else if code == "KeyK"@ || code == "K"@ {
        Some("KeyK"@)
    } else if code == "KeyL"@ || code == "L"@ {
        Some("KeyL"@)
    } else if code == "KeyM"@ || code == "M"@ {
        Some("KeyM"@)
    } else if code == "KeyN"@ || code == "N"@ {
        Some("KeyN"@)
    } else if code == "KeyO"@ || code == "O"@ {
        Some("KeyO"@)
    } else if code == "KeyP"@ || code == "P"@ {
        Some("KeyP"@)
    } else if code == "KeyQ"@ || code == "Q"@ {
        Some("KeyQ"@)
    } else if code == "KeyR"@ || code == "R"@ {
        Some("KeyR"@)
    } else if code == "KeyS"@ || code == "S"@ {
        Some("KeyS"@)
    } else if code == "KeyT"@ || code == "T"@ {
        Some("KeyT"@)
    } else if code == "KeyU"@ || code == "U"@ {
        Some("KeyU"@)
    } else if code == "KeyV"@ || code == "V"@ {
        Some("KeyV"@)
    } else if code == "KeyW"@ || code == "W"@ {
        Some("KeyW"@)
    } else if code == "KeyX"@ || code == "X"@ {
        Some("KeyX"@)
    } else if code == "KeyY"@ || code == "Y"@ {
        Some("KeyY"@)
    } else if code == "KeyZ"@ || code == "Z"@ {
        Some("KeyZ"@)
    } else if code == "Digit0"@ || code == "D0"@ {
        Some("Digit0"@)
    } else if code == "Digit1"@ || code == "D1"@ {
        Some("Digit1"@)
    } else if code == "Digit2"@ || code == "D2"@ {
        Some("Digit2"@)
    } else if code == "Digit3"@ || code == "D3"@ {
        Some("Digit3"@)
    } else if code == "Digit4"@ || code == "D4"@ {
        Some("Digit4"@)
    } else if code == "Digit5"@ || code == "D5"@ {
        Some("Digit5"@)
    } else if code == "Digit6"@ || code == "D6"@ {
        Some("Digit6"@)
    } else if code == "Digit7"@ || code == "D7"@ {
        Some("Digit7"@)
    } else if code == "Digit8"@ || code == "D8"@ {
        Some("Digit8"@)
    } else if code == "Digit9"@ || code == "D9"@ {
        Some("Digit9"@)
    } else if code == "F1"@ {
        Some("F1"@)
    } else if code == "F2"@ {
        Some("F2"@)
    } else if code == "F3"@ {
        Some("F3"@)
    } else if code == "F4"@ {
        Some("F4"@)
    } else if code == "F5"@ {
        Some("F5"@)
    } else if code == "F6"@ {
        Some("F6"@)
    } else if code == "F7"@ {
        Some("F7"@)
    } else if code == "F8"@ {
        Some("F8"@)
    } else if code == "F9"@ {
        Some("F9"@)
    } else if code == "F10"@ {
        Some("F10"@)
    } else if code == "F11"@ {
        Some("F11"@)
    } else if code == "F12"@ {
        Some("F12"@)
    } else if code == "F13"@ {
        Some("F13"@)
    } else if code == "F14"@ {
        Some("F14"@)
    } else if code == "F15"@ {
        Some("F15"@)
    } else if code == "F16"@ {
        Some("F16"@)
    } else if code == "F17"@ {
        Some("F17"@)
    } else if code == "F18"@ {
        Some("F18"@)
    } else if code == "F19"@ {
        Some("F19"@)
    } else if code == "F20"@ {
        Some("F20"@)
    } else if code == "F21"@ {
        Some("F21"@)
    } else if code == "F22"@ {
        Some("F22"@)
    } else if code == "F23"@ {
        Some("F23"@)
    } else if code == "F24"@ {
        Some("F24"@)
    } else if code == "ArrowUp"@ || code == "Up"@ {
        Some("ArrowUp"@)
    } else if code == "ArrowDown"@ || code == "Down"@ {
        Some("ArrowDown"@)
    } else if code == "ArrowLeft"@ || code == "Left"@ {
        Some("ArrowLeft"@)
    } else if code == "ArrowRight"@ || code == "Right"@ {
        Some("ArrowRight"@)
    } else if code == "Home"@ {
        Some("Home"@)
    } else if code == "End"@ {
        Some("End"@)
    } else if code == "PageUp"@ || code == "Prior"@ {
        Some("PageUp"@)
    } else if code == "PageDown"@ || code == "Next"@ {
        Some("PageDown"@)
    } else if code == "Insert"@ {
        Some("Insert"@)
    } else if code == "Delete"@ {
        Some("Delete"@)
    } else if code == "Enter"@ || code == "Return"@ {
        Some("Enter"@)
    } else if code == "Backspace"@ {
        Some("Backspace"@)
    } else if code == "Tab"@ {
        Some("Tab"@)
    } else if code == "Escape"@ || code == "Esc"@ {
        Some("Escape"@)
    } else if code == "Space"@ {
        Some("Space"@)
    } else if code == "CapsLock"@ {
        Some("CapsLock"@)
    } else if code == "NumLock"@ {
        Some("NumLock"@)
    } else if code == "ScrollLock"@ {
        Some("ScrollLock"@)
    } else if code == "Numpad0"@ || code == "Num0"@ {
        Some("Numpad0"@)
    } else if code == "Numpad1"@ || code == "Num1"@ {
        Some("Numpad1"@)
    } else if code == "Numpad2"@ || code == "Num2"@ {
        Some("Numpad2"@)
    } else if code == "Numpad3"@ || code == "Num3"@ {
        Some("Numpad3"@)
    } else if code == "Numpad4"@ || code == "Num4"@ {
        Some("Numpad4"@)
    } else if code == "Numpad5"@ || code == "Num5"@ {
        Some("Numpad5"@)
    } else if code == "Numpad6"@ || code == "Num6"@ {
        Some("Numpad6"@)
    } else if code == "Numpad7"@ || code == "Num7"@ {
        Some("Numpad7"@)
    } else if code == "Numpad8"@ || code == "Num8"@ {
        Some("Numpad8"@)
    } else if code == "Numpad9"@ || code == "Num9"@ {
        Some("Numpad9"@)
    } else if code == "NumpadMultiply"@ || code == "NumMultiply"@ {
        Some("NumpadMultiply"@)
    } else if code == "NumpadAdd"@ || code == "NumAdd"@ {
        Some("NumpadAdd"@)
    } else if code == "NumpadSubtract"@ || code == "NumSubtract"@ {
        Some("NumpadSubtract"@)
    } else if code == "NumpadDecimal"@ || code == "NumDecimal"@ {
        Some("NumpadDecimal"@)
    } else if code == "NumpadDivide"@ || code == "NumDivide"@ {
        Some("NumpadDivide"@)
    } else if code == "NumpadEnter"@ || code == "NumEnter"@ {
        Some("NumpadEnter"@)
    } else if code == "NumpadSeparator"@ || code == "NumSeparator"@ {
        Some("NumpadSeparator"@)
    } else if code == "AudioVolumeMute"@ || code == "VolumeMute"@ {
        Some("AudioVolumeMute"@)
    } else if code == "AudioVolumeDown"@ || code == "VolumeDown"@ {
        Some("AudioVolumeDown"@)
    } else if code == "AudioVolumeUp"@ || code == "VolumeUp"@ {
        Some("AudioVolumeUp"@)
    } else if code == "MediaPlayPause"@ {
        Some("MediaPlayPause"@)
    } else if code == "MediaStop"@ {
        Some("MediaStop"@)
    } else if code == "MediaTrackNext"@ || code == "MediaNext"@ {
        Some("MediaTrackNext"@)
    } else if code == "MediaTrackPrevious"@ || code == "MediaPrevious"@ {
        Some("MediaTrackPrevious"@)
    } else if code == "MediaSelect"@ {
        Some("MediaSelect"@)
    } else if code == "LaunchMail"@ {
        Some("LaunchMail"@)
    } else if code == "LaunchApp1"@ {
        Some("LaunchApp1"@)
    } else if code == "LaunchApp2"@ {
        Some("LaunchApp2"@)
    } else if code == "BrowserBack"@ {
        Some("BrowserBack"@)
    } else if code == "BrowserForward"@ {
        Some("BrowserForward"@)
    } else if code == "BrowserRefresh"@ {
        Some("BrowserRefresh"@)
    } else if code == "BrowserStop"@ {
        Some("BrowserStop"@)
    } else if code == "BrowserSearch"@ {
        Some("BrowserSearch"@)
    } else if code == "BrowserFavorites"@ {
        Some("BrowserFavorites"@)
    } else if code == "BrowserHome"@ {
        Some("BrowserHome"@)
    } else if code == "Semicolon"@ {
        Some("Semicolon"@)
    } else if code == "Equal"@ {
        Some("Equal"@)
    } else if code == "Comma"@ {
        Some("Comma"@)
    } else if code == "Minus"@ {
        Some("Minus"@)
    } else if code == "Period"@ {
        Some("Period"@)
    } else if code == "Slash"@ {
        Some("Slash"@)
    } else if code == "Backquote"@ || code == "Grave"@ {
        Some("Backquote"@)
    } else if code == "BracketLeft"@ {
        Some("BracketLeft"@)
    } else if code == "Backslash"@ {
        Some("Backslash"@)
    } else if code == "BracketRight"@ {
        Some("BracketRight"@)
    } else if code == "Quote"@ {
        Some("Quote"@)
    } else if code == "Pause"@ || code == "Break"@ {
        Some("Pause"@)
    } else if code == "PrintScreen"@ || code == "Snapshot"@ {
        Some("PrintScreen"@)
    } else if code == "ContextMenu"@ || code == "Apps"@ || code == "Menu"@ {
        Some("ContextMenu"@)
    } else if code == "Sleep"@ {
        Some("Sleep"@)
    } else if code == "WakeUp"@ {
        Some("WakeUp"@)
    } else if code == "IntlBackslash"@ {
        Some("IntlBackslash"@)
    } else if code == "IntlRo"@ {
        Some("IntlRo"@)
    } else if code == "IntlYen"@ {
        Some("IntlYen"@)
    } else {
        None
    }
}

/// The key an input is, by the first code that names it; empty for an input
/// that no named code gives.
pub open spec fn canonical_of(x: OsInput) -> Seq<char> {
    match x {
        OsInput::Key(vk, name) => {
            if vk == 0xA0 && name@ == "SHIFT"@ {
                "ShiftLeft"@
            } else if vk == 0xA1 && name@ == "SHIFT"@ {
                "ShiftRight"@
            } else if vk == 0x10 && name@ == "SHIFT"@ {
                "Shift"@
            } else if vk == 0xA2 && name@ == "CTRL"@ {
                "ControlLeft"@
            } else if vk == 0xA3 && name@ == "CTRL"@ {
                "ControlRight"@
            } else if vk == 0x11 && name@ == "CTRL"@ {
                "Control"@
            } else if vk == 0xA4 && name@ == "ALT"@ {
                "AltLeft"@
            } else if vk == 0xA5 && name@ == "ALT"@ {
                "AltRight"@
            } else if vk == 0x12 && name@ == "ALT"@ {
                "Alt"@
            } else if vk == 0x5B && name@ == "LOGO"@ {
                "MetaLeft"@
            } else if vk == 0x5C && name@ == "LOGO"@ {
                "MetaRight"@
            } else if vk == 0x41 && name@ == "a"@ {
                "KeyA"@
            } else if vk == 0x42 && name@ == "b"@ {
                "KeyB"@
            } else if vk == 0x43 && name@ == "c"@ {
                "KeyC"@
            } else if vk == 0x44 && name@ == "d"@ {
                "KeyD"@
            } else if vk == 0x45 && name@ == "e"@ {
                "KeyE"@
            } else if vk == 0x46 && name@ == "f"@ {
                "KeyF"@
            } else if vk == 0x47 && name@ == "g"@ {
                "KeyG"@
            } else if vk == 0x48 && name@ == "h"@ {
                "KeyH"@
            } else if vk == 0x49 && name@ == "i"@ {
                "KeyI"@
            } else if vk == 0x4A && name@ == "j"@ {
                "KeyJ"@
            } else if vk == 0x4B && name@ == "k"@ {
                "KeyK"@
            } else if vk == 0x4C && name@ == "l"@ {
                "KeyL"@
            } else if vk == 0x4D && name@ == "m"@ {
                "KeyM"@
            } else if vk == 0x4E && name@ == "n"@ {
                "KeyN"@
            } else if vk == 0x4F && name@ == "o"@ {
                "KeyO"@
            } else if vk == 0x50 && name@ == "p"@ {
                "KeyP"@
            } else if vk == 0x51 && name@ == "q"@ {
                "KeyQ"@
            } else if vk == 0x52 && name@ == "r"@ {
                "KeyR"@
            } else if vk == 0x53 && name@ == "s"@ {
                "KeyS"@
            } else if vk == 0x54 && name@ == "t"@ {
                "KeyT"@
            } else if vk == 0x55 && name@ == "u"@ {
                "KeyU"@
            } else if vk == 0x56 && name@ == "v"@ {
                "KeyV"@
            } else if vk == 0x57 && name@ == "w"@ {
                "KeyW"@
            } else if vk == 0x58 && name@ == "x"@ {
                "KeyX"@
            } else if vk == 0x59 && name@ == "y"@ {
                "KeyY"@
            } else if vk == 0x5A && name@ == "z"@ {
                "KeyZ"@
            } else if vk == 0x30 && name@ == "0"@ {
                "Digit0"@
            } else if vk == 0x31 && name@ == "1"@ {
                "Digit1"@
            } else if vk == 0x32 && name@ == "2"@ {
                "Digit2"@
            } else if vk == 0x33 && name@ == "3"@ {
                "Digit3"@
            } else if vk == 0x34 && name@ == "4"@ {
                "Digit4"@
            } else if vk == 0x35 && name@ == "5"@ {
                "Digit5"@
            } else if vk == 0x36 && name@ == "6"@ {
                "Digit6"@
            } else if vk == 0x37 && name@ == "7"@ {
                "Digit7"@
            } else if vk == 0x38 && name@ == "8"@ {
                "Digit8"@
            } else if vk == 0x39 && name@ == "9"@ {
                "Digit9"@
            } else if vk == 0x70 && name@ == "F1"@ {
                "F1"@
            } else if vk == 0x71 && name@ == "F2"@ {
                "F2"@
            } else if vk == 0x72 && name@ == "F3"@ {
                "F3"@
            } else if vk == 0x73 && name@ == "F4"@ {
                "F4"@
            } else if vk == 0x74 && name@ == "F5"@ {
                "F5"@
            } else if vk == 0x75 && name@ == "F6"@ {
                "F6"@
            } else if vk == 0x76 && name@ == "F7"@ {
                "F7"@
            } else if vk == 0x77 && name@ == "F8"@ {
                "F8"@
            } else if vk == 0x78 && name@ == "F9"@ {
                "F9"@
            } else if vk == 0x79 && name@ == "F10"@ {
                "F10"@
            } else if vk == 0x7A && name@ == "F11"@ {
                "F11"@
            } else if vk == 0x7B && name@ == "F12"@ {
                "F12"@
            } else if vk == 0x7C && name@ == "F13"@ {
                "F13"@
            } else if vk == 0x7D && name@ == "F14"@ {
                "F14"@
            } else if vk == 0x7E && name@ == "F15"@ {
                "F15"@
            } else if vk == 0x7F && name@ == "F16"@ {
                "F16"@
            } else if vk == 0x80 && name@ == "F17"@ {
                "F17"@
            } else if vk == 0x81 && name@ == "F18"@ {
                "F18"@
            } else if vk == 0x82 && name@ == "F19"@ {
                "F19"@
            } else if vk == 0x83 && name@ == "F20"@ {
                "F20"@
            } else if vk == 0x84 && name@ == "F21"@ {
                "F21"@
            } else if vk == 0x85 && name@ == "F22"@ {
                "F22"@
            } else if vk == 0x86 && name@ == "F23"@ {
                "F23"@
            } else if vk == 0x87 && name@ == "F24"@ {
                "F24"@
            } else if vk == 0x26 && name@ == "Up"@ {
                "ArrowUp"@
            } else if vk == 0x28 && name@ == "Down"@ {
                "ArrowDown"@
            } else if vk == 0x25 && name@ == "Left"@ {
                "ArrowLeft"@
            } else if vk == 0x27 && name@ == "Right"@ {
                "ArrowRight"@
            } else if vk == 0x24 && name@ == "Home"@ {
                "Home"@
            } else if vk == 0x23 && name@ == "End"@ {
                "End"@
            } else if vk == 0x21 && name@ == "Prior"@ {
                "PageUp"@
            } else if vk == 0x22 && name@ == "Next"@ {
                "PageDown"@
            } else if vk == 0x2D && name@ == "Insert"@ {
                "Insert"@
            } else if vk == 0x2E && name@ == "Delete"@ {
                "Delete"@
            } else if vk == 0x0D && name@ == "Return"@ {
                "Enter"@
            } else if vk == 0x08 && name@ == "BackSpace"@ {
                "Backspace"@
            } else if vk == 0x09 && name@ == "Tab"@ {
                "Tab"@
            } else if vk == 0x1B && name@ == "Escape"@ {
                "Escape"@
            } else if vk == 0x20 && name@ == "space"@ {
                "Space"@
            } else if vk == 0x14 && name@ == "Caps_Lock"@ {
                "CapsLock"@
            } else if vk == 0x90 && name@ == "Num_Lock"@ {
                "NumLock"@
            } else if vk == 0x91 && name@ == "Scroll_Lock"@ {
                "ScrollLock"@
            } else if vk == 0x60 && name@ == "KP_0"@ {
                "Numpad0"@
            } else if vk == 0x61 && name@ == "KP_1"@ {
                "Numpad1"@
            } else if vk == 0x62 && name@ == "KP_2"@ {
                "Numpad2"@
            } else if vk == 0x63 && name@ == "KP_3"@ {
                "Numpad3"@
            } else if vk == 0x64 && name@ == "KP_4"@ {
                "Numpad4"@
            } else if vk == 0x65 && name@ == "KP_5"@ {
                "Numpad5"@
            } else if vk == 0x66 && name@ == "KP_6"@ {
                "Numpad6"@
            } else if vk == 0x67 && name@ == "KP_7"@ {
                "Numpad7"@
            } else if vk == 0x68 && name@ == "KP_8"@ {
                "Numpad8"@
            } else if vk == 0x69 && name@ == "KP_9"@ {
                "Numpad9"@
            } else if vk == 0x6A && name@ == "KP_Multiply"@ {
                "NumpadMultiply"@
            } else if vk == 0x6B && name@ == "KP_Add"@ {
                "NumpadAdd"@
            } else if vk == 0x6D && name@ == "KP_Subtract"@ {
                "NumpadSubtract"@
            } else if vk == 0x6E && name@ == "KP_Decimal"@ {
                "NumpadDecimal"@
            } else if vk == 0x6F && name@ == "KP_Divide"@ {
                "NumpadDivide"@
            } else if vk == 0x0D && name@ == "KP_Enter"@ {
                "NumpadEnter"@
            } else if vk == 0x6C && name@ == "KP_Separator"@ {
                "NumpadSeparator"@
            } else if vk == 0xAD && name@ == "XF86AudioMute"@ {
                "AudioVolumeMute"@
            } else if vk == 0xAE && name@ == "XF86AudioLowerVolume"@ {
                "AudioVolumeDown"@
            } else if vk == 0xAF && name@ == "XF86AudioRaiseVolume"@ {
                "AudioVolumeUp"@
            } else if vk == 0xB3 && name@ == "XF86AudioPlay"@ {
                "MediaPlayPause"@
            } else if vk == 0xB2 && name@ == "XF86AudioStop"@ {
                "MediaStop"@
            } else if vk == 0xB0 && name@ == "XF86AudioNext"@ {
                "MediaTrackNext"@
            } else if vk == 0xB1 && name@ == "XF86AudioPrev"@ {
                "MediaTrackPrevious"@
            } else if vk == 0xB5 && name@ == "XF86AudioMedia"@ {
                "MediaSelect"@
            } else if vk == 0xB4 && name@ == "XF86Mail"@ {
                "LaunchMail"@
            } else if vk == 0xB6 && name@ == "XF86Launch1"@ {
                "LaunchApp1"@
            } else if vk == 0xB7 && name@ == "XF86Launch2"@ {
                "LaunchApp2"@
            } else if vk == 0xA6 && name@ == "XF86Back"@ {
                "BrowserBack"@
            } else if vk == 0xA7 && name@ == "XF86Forward"@ {
                "BrowserForward"@
            } else if vk == 0xA8 && name@ == "XF86Refresh"@ {
                "BrowserRefresh"@
            } else if vk == 0xA9 && name@ == "XF86Stop"@ {
                "BrowserStop"@
            } else if vk == 0xAA && name@ == "XF86Search"@ {
                "BrowserSearch"@
            } else if vk == 0xAB && name@ == "XF86Favorites"@ {
                "BrowserFavorites"@
            } else if vk == 0xAC && name@ == "XF86HomePage"@ {
                "BrowserHome"@
            } else if vk == 0xBA && name@ == "semicolon"@ {
                "Semicolon"@
            } else if vk == 0xBB && name@ == "equal"@ {
                "Equal"@
            } else if vk == 0xBC && name@ == "comma"@ {
                "Comma"@
            } else if vk == 0xBD && name@ == "minus"@ {
                "Minus"@
            } else if vk == 0xBE && name@ == "period"@ {
                "Period"@
            } else if vk == 0xBF && name@ == "slash"@ {
                "Slash"@
            } else if vk == 0xC0 && name@ == "grave"@ {
                "Backquote"@
            } else if vk == 0xDB && name@ == "bracketleft"@ {
                "BracketLeft"@
            } else if vk == 0xDC && name@ == "backslash"@ {
                "Backslash"@
            } else if vk == 0xDD && name@ == "bracketright"@ {
                "BracketRight"@
            } else if vk == 0xDE && name@ == "apostrophe"@ {
                "Quote"@
            } else if vk == 0x13 && name@ == "Pause"@ {
                "Pause"@
            } else if vk == 0x2A && name@ == "Print"@ {
                "PrintScreen"@
            } else if vk == 0x5D && name@ == "Menu"@ {
                "ContextMenu"@
            } else if vk == 0x5F && name@ == "XF86Sleep"@ {
                "Sleep"@
            } else if vk == 0xE3 && name@ == "XF86WakeUp"@ {
                "WakeUp"@
            } else if vk == 0xE2 && name@ == "backslash"@ {
                "IntlBackslash"@
            } else if vk == 0xE1 && name@ == "ro"@ {
                "IntlRo"@
            } else if vk == 0xE3 && name@ == "yen"@ {
                "IntlYen"@
            } else {
                Seq::empty()
            }
        },
        OsInput::MouseBtn(vk, name) => {
            if vk == 0x01 && name@ == "Button1"@ {
                "Mouse0"@
            } else if vk == 0x04 && name@ == "Button2"@ {
                "Mouse1"@
            } else if vk == 0x02 && name@ == "Button3"@ {
                "Mouse2"@
            } else if vk == 0x05 && name@ == "Button8"@ {
                "Mouse3"@
            } else if vk == 0x06 && name@ == "Button9"@ {
                "Mouse4"@
            } else {
                Seq::empty()
            }
        },
        OsInput::Scroll { amount, is_horizontal } => {
            if amount == 1 && is_horizontal == false {
                "WheelUp"@
            } else if amount == -1 && is_horizontal == false {
                "WheelDown"@
            } else if amount == -1 && is_horizontal == true {
                "WheelLeft"@
            } else if amount == 1 && is_horizontal == true {
                "WheelRight"@
            } else {
                Seq::empty()
            }
        },
        OsInput::OsSpecificKey(_) => Seq::empty(),
    }
}

/// The keys of each table of named inputs: each spelling names the same input
/// as its key's first code, and that input is recognised as that key again.

proof fn lemma_keys_of_mouse(code: Seq<char>)
    requires
        table_literals_known(),
        code == "Mouse0"@ || code == "Mouse1"@ || code == "Middle"@ || code == "Mouse2"@ || code == "Mouse3"@ || code == "X1"@ || code == "Back"@ || code == "Mouse4"@ || code == "X2"@ || code == "Forward"@,
    ensures
        key_class(code) matches Some(k) && js_named_input(code) is Some && js_named_input(code) == js_named_input(k)
            && canonical_of(js_named_input(code).unwrap()) == k,
        !(code.len() >= 3 && code[0] == 'V' && code[1] == 'K' && code[2] == '_'),
{
    if code == "Mouse0"@ {
        assert(js_named_input(code) == Some(OsInput::MouseBtn(0x01, "Button1")));
    } else if code == "Mouse1"@ || code == "Middle"@ {
        assert(js_named_input(code) == Some(OsInput::MouseBtn(0x04, "Button2")));
    } else if code == "Mouse2"@ {
        assert(js_named_input(code) == Some(OsInput::MouseBtn(0x02, "Button3")));
    } else if code == "Mouse3"@ || code == "X1"@ || code == "Back"@ {
        assert(js_named_input(code) == Some(OsInput::MouseBtn(0x05, "Button8")));
    } else if code == "Mouse4"@ || code == "X2"@ || code == "Forward"@ {
        assert(js_named_input(code) == Some(OsInput::MouseBtn(0x06, "Button9")));
    }
}

proof fn lemma_keys_of_wheel(code: Seq<char>)
    requires
        table_literals_known(),
        code == "WheelUp"@ || code == "WheelDown"@ || code == "WheelLeft"@ || code == "WheelRight"@,
    ensures
        key_class(code) matches Some(k) && js_named_input(code) is Some && js_named_input(code) == js_named_input(k)
            && canonical_of(js_named_input(code).unwrap()) == k,
        !(code.len() >= 3 && code[0] == 'V' && code[1] == 'K' && code[2] == '_'),
{
    if code == "WheelUp"@ {
        assert(js_named_input(code) == Some(OsInput::Scroll { amount: 1, is_horizontal: false, }));
    } else if code == "WheelDown"@ {
        assert(js_named_input(code) == Some(OsInput::Scroll { amount: -1i32, is_horizontal: false, }));
    } else if code == "WheelLeft"@ {
        assert(js_named_input(code) == Some(OsInput::Scroll { amount: -1i32, is_horizontal: true, }));
    } else if code == "WheelRight"@ {
        assert(js_named_input(code) == Some(OsInput::Scroll { amount: 1, is_horizontal: true, }));
    }
}

proof fn lemma_keys_of_modifiers(code: Seq<char>)
    requires
        table_literals_known(),
        code == "ShiftLeft"@ || code == "ShiftRight"@ || code == "Shift"@ || code == "ControlLeft"@ || code == "ControlRight"@ || code == "Control"@ || code == "Ctrl"@ || code == "AltLeft"@ || code == "AltRight"@ || code == "Alt"@ || code == "MetaLeft"@ || code == "OSLeft"@ || code == "MetaRight"@ || code == "OSRight"@ || code == "Meta"@ || code == "OS"@ || code == "Win"@ || code == "Super"@,
    ensures
        key_class(code) matches Some(k) && js_named_input(code) is Some && js_named_input(code) == js_named_input(k)
            && canonical_of(js_named_input(code).unwrap()) == k,
        !(code.len() >= 3 && code[0] == 'V' && code[1] == 'K' && code[2] == '_'),
{
    if code == "ShiftLeft"@ {
        assert(js_named_input(code) == Some(OsInput::Key(0xA0, "SHIFT")));
    } else if code == "ShiftRight"@ {
        assert(js_named_input(code) == Some(OsInput::Key(0xA1, "SHIFT")));
    } else if code == "Shift"@ {
        assert(js_named_input(code) == Some(OsInput::Key(0x10, "SHIFT")));
    } else if code == "ControlLeft"@ {
        assert(js_named_input(code) == Some(OsInput::Key(0xA2, "CTRL")));
    } else if code == "ControlRight"@ {
        assert(js_named_input(code) == Some(OsInput::Key(0xA3, "CTRL")));
    } else if code == "Control"@ || code == "Ctrl"@ {
        assert(js_named_input(code) == Some(OsInput::Key(0x11, "CTRL")));
    } else if code == "AltLeft"@ {
        assert(js_named_input(code) == Some(OsInput::Key(0xA4, "ALT")));
    } else if code == "AltRight"@ {
        assert(js_named_input(code) == Some(OsInput::Key(0xA5, "ALT")));
    } else if code == "Alt"@ {
        assert(js_named_input(code) == Some(OsInput::Key(0x12, "ALT")));
    } else if code == "MetaLeft"@ || code == "OSLeft"@ {
        assert(js_named_input(code) == Some(OsInput::Key(0x5B, "LOGO")));
    } else if code == "MetaRight"@ || code == "OSRight"@ {
        assert(js_named_input(code) == Some(OsInput::Key(0x5C, "LOGO")));
    } else if code == "Meta"@ || code == "OS"@ || code == "Win"@ || code == "Super"@ {
        assert(js_named_input(code) == Some(OsInput::Key(0x5B, "LOGO")));
    }
}

proof fn lemma_keys_of_letters(code: Seq<char>)
    requires
        table_literals_known(),
        code == "KeyA"@ || code == "A"@ || code == "KeyB"@ || code == "B"@ || code == "KeyC"@ || code == "C"@ || code == "KeyD"@ || code == "D"@ || code == "KeyE"@ || code == "E"@ || code == "KeyF"@ || code == "F"@ || code == "KeyG"@ || code == "G"@ || code == "KeyH"@ || code == "H"@ || code == "KeyI"@ || code == "I"@ || code == "KeyJ"@ || code == "J"@ || code == "KeyK"@ || code == "K"@ || code == "KeyL"@ || code == "L"@ || code == "KeyM"@ || code == "M"@ || code == "KeyN"@ || code == "N"@ || code == "KeyO"@ || code == "O"@ || code == "KeyP"@ || code == "P"@ || code == "KeyQ"@ || code == "Q"@ || code == "KeyR"@ || code == "R"@ || code == "KeyS"@ || code == "S"@ || code == "KeyT"@ || code == "T"@ || code == "KeyU"@ || code == "U"@ || code == "KeyV"@ || code == "V"@ || code == "KeyW"@ || code == "W"@ || code == "KeyX"@ || code == "X"@ || code == "KeyY"@ || code == "Y"@ || code == "KeyZ"@ || code == "Z"@,
    ensures
        key_class(code) matches Some(k) && js_named_input(code) is Some && js_named_input(code) == js_named_input(k)
            && canonical_of(js_named_input(code).unwrap()) == k,
        !(code.len() >= 3 && code[0] == 'V' && code[1] == 'K' && code[2] == '_'),
{
    if code == "KeyA"@ || code == "A"@ {
        assert(js_named_input(code) == Some(OsInput::Key(0x41, "a")));
    } else if code == "KeyB"@ || code == "B"@ {
        assert(js_named_input(code) == Some(OsInput::Key(0x42, "b")));
    } else if code == "KeyC"@ || code == "C"@ {
        assert(js_named_input(code) == Some(OsInput::Key(0x43, "c")));
    } else if code == "KeyD"@ || code == "D"@ {
        assert(js_named_input(code) == Some(OsInput::Key(0x44, "d")));
    } else if code == "KeyE"@ || code == "E"@ {
        assert(js_named_input(code) == Some(OsInput::Key(0x45, "e")));
    } else if code == "KeyF"@ || code == "F"@ {
        assert(js_named_input(code) == Some(OsInput::Key(0x46, "f")));
    } else if code == "KeyG"@ || code == "G"@ {
        assert(js_named_input(code) == Some(OsInput::Key(0x47, "g")));
    } else if code == "KeyH"@ || code == "H"@ {
        assert(js_named_input(code) == Some(OsInput::Key(0x48, "h")));
    } else if code == "KeyI"@ || code == "I"@ {
        assert(js_named_input(code) == Some(OsInput::Key(0x49, "i")));
    } else if code == "KeyJ"@ || code == "J"@ {
        assert(js_named_input(code) == Some(OsInput::Key(0x4A, "j")));
    } else if code == "KeyK"@ || code == "K"@ {
        assert(js_named_input(code) == Some(OsInput::Key(0x4B, "k")));
    } else if code == "KeyL"@ || code == "L"@ {
        assert(js_named_input(code) == Some(OsInput::Key(0x4C, "l")));
    } else if code == "KeyM"@ || code == "M"@ {
        assert(js_named_input(code) == Some(OsInput::Key(0x4D, "m")));
    } else if code == "KeyN"@ || code == "N"@ {
        assert(js_named_input(code) == Some(OsInput::Key(0x4E, "n")));
    } else if code == "KeyO"@ || code == "O"@ {
        assert(js_named_input(code) == Some(OsInput::Key(0x4F, "o")));
    } else if code == "KeyP"@ || code == "P"@ {
        assert(js_named_input(code) == Some(OsInput::Key(0x50, "p")));
    } else if code == "KeyQ"@ || code == "Q"@ {
        assert(js_named_input(code) == Some(OsInput::Key(0x51, "q")));
    } else if code == "KeyR"@ || code == "R"@ {
        assert(js_named_input(code) == Some(OsInput::Key(0x52, "r")));
    } else if code == "KeyS"@ || code == "S"@ {
        assert(js_named_input(code) == Some(OsInput::Key(0x53, "s")));
    } else if code == "KeyT"@ || code == "T"@ {
        assert(js_named_input(code) == Some(OsInput::Key(0x54, "t")));
    } else if code == "KeyU"@ || code == "U"@ {
        assert(js_named_input(code) == Some(OsInput::Key(0x55, "u")));
    } else if code == "KeyV"@ || code == "V"@ {
        assert(js_named_input(code) == Some(OsInput::Key(0x56, "v")));
    } else if code == "KeyW"@ || code == "W"@ {
        assert(js_named_input(code) == Some(OsInput::Key(0x57, "w")));
    } else if code == "KeyX"@ || code == "X"@ {
        assert(js_named_input(code) == Some(OsInput::Key(0x58, "x")));
    } else if code == "KeyY"@ || code == "Y"@ {
        assert(js_named_input(code) == Some(OsInput::Key(0x59, "y")));
    } else if code == "KeyZ"@ || code == "Z"@ {
        assert(js_named_input(code) == Some(OsInput::Key(0x5A, "z")));
    }
}

proof fn lemma_keys_of_digits(code: Seq<char>)
    requires
        table_literals_known(),
        code == "Digit0"@ || code == "D0"@ || code == "Digit1"@ || code == "D1"@ || code == "Digit2"@ || code == "D2"@ || code == "Digit3"@ || code == "D3"@ || code == "Digit4"@ || code == "D4"@ || code == "Digit5"@ || code == "D5"@ || code == "Digit6"@ || code == "D6"@ || code == "Digit7"@ || code == "D7"@ || code == "Digit8"@ || code == "D8"@ || code == "Digit9"@ || code == "D9"@,
    ensures
        key_class(code) matches Some(k) && js_named_input(code) is Some && js_named_input(code) == js_named_input(k)
            && canonical_of(js_named_input(code).unwrap()) == k,
        !(code.len() >= 3 && code[0] == 'V' && code[1] == 'K' && code[2] == '_'),
{
    if code == "Digit0"@ || code == "D0"@ {
        assert(js_named_input(code) == Some(OsInput::Key(0x30, "0")));
    } else if code == "Digit1"@ || code == "D1"@ {
        assert(js_named_input(code) == Some(OsInput::Key(0x31, "1")));
    } else if code == "Digit2"@ || code == "D2"@ {
        assert(js_named_input(code) == Some(OsInput::Key(0x32, "2")));
    } else if code == "Digit3"@ || code == "D3"@ {
        assert(js_named_input(code) == Some(OsInput::Key(0x33, "3")));
    } else if code == "Digit4"@ || code == "D4"@ {
        assert(js_named_input(code) == Some(OsInput::Key(0x34, "4")));
    } else if code == "Digit5"@ || code == "D5"@ {
        assert(js_named_input(code) == Some(OsInput::Key(0x35, "5")));
    } else if code == "Digit6"@ || code == "D6"@ {
        assert(js_named_input(code) == Some(OsInput::Key(0x36, "6")));
    } else if code == "Digit7"@ || code == "D7"@ {
        assert(js_named_input(code) == Some(OsInput::Key(0x37, "7")));
    } else if code == "Digit8"@ || code == "D8"@ {
        assert(js_named_input(code) == Some(OsInput::Key(0x38, "8")));
    } else if code == "Digit9"@ || code == "D9"@ {
        assert(js_named_input(code) == Some(OsInput::Key(0x39, "9")));
    }
}

proof fn lemma_keys_of_function_keys(code: Seq<char>)
    requires
        table_literals_known(),
        code == "F1"@ || code == "F2"@ || code == "F3"@ || code == "F4"@ || code == "F5"@ || code == "F6"@ || code == "F7"@ || code == "F8"@ || code == "F9"@ || code == "F10"@ || code == "F11"@ || code == "F12"@ || code == "F13"@ || code == "F14"@ || code == "F15"@ || code == "F16"@ || code == "F17"@ || code == "F18"@ || code == "F19"@ || code == "F20"@ || code == "F21"@ || code == "F22"@ || code == "F23"@ || code == "F24"@,
    ensures
        key_class(code) matches Some(k) && js_named_input(code) is Some && js_named_input(code) == js_named_input(k)
            && canonical_of(js_named_input(code).unwrap()) == k,
        !(code.len() >= 3 && code[0] == 'V' && code[1] == 'K' && code[2] == '_'),
{
    if code == "F1"@ {
        assert(js_named_input(code) == Some(OsInput::Key(0x70, "F1")));
    } else if code == "F2"@ {
        assert(js_named_input(code) == Some(OsInput::Key(0x71, "F2")));
    } else if code == "F3"@ {
        assert(js_named_input(code) == Some(OsInput::Key(0x72, "F3")));
    } else if code == "F4"@ {
        assert(js_named_input(code) == Some(OsInput::Key(0x73, "F4")));
    } else if code == "F5"@ {
        assert(js_named_input(code) == Some(OsInput::Key(0x74, "F5")));
    } else if code == "F6"@ {
        assert(js_named_input(code) == Some(OsInput::Key(0x75, "F6")));
    } else if code == "F7"@ {
        assert(js_named_input(code) == Some(OsInput::Key(0x76, "F7")));
    } else if code == "F8"@ {
        assert(js_named_input(code) == Some(OsInput::Key(0x77, "F8")));
    } else if code == "F9"@ {
        assert(js_named_input(code) == Some(OsInput::Key(0x78, "F9")));
    } else if code == "F10"@ {
        assert(js_named_input(code) == Some(OsInput::Key(0x79, "F10")));
    } else if code == "F11"@ {
        assert(js_named_input(code) == Some(OsInput::Key(0x7A, "F11")));
    } else if code == "F12"@ {
        assert(js_named_input(code) == Some(OsInput::Key(0x7B, "F12")));
    } else if code == "F13"@ {
        assert(js_named_input(code) == Some(OsInput::Key(0x7C, "F13")));
    } else if code == "F14"@ {
        assert(js_named_input(code) == Some(OsInput::Key(0x7D, "F14")));
    } else if code == "F15"@ {
        assert(js_named_input(code) == Some(OsInput::Key(0x7E, "F15")));
    } else if code == "F16"@ {
        assert(js_named_input(code) == Some(OsInput::Key(0x7F, "F16")));
    } else if code == "F17"@ {
        assert(js_named_input(code) == Some(OsInput::Key(0x80, "F17")));
    } else if code == "F18"@ {
        assert(js_named_input(code) == Some(OsInput::Key(0x81, "F18")));
    } else if code == "F19"@ {
        assert(js_named_input(code) == Some(OsInput::Key(0x82, "F19")));
    } else if code == "F20"@ {
        assert(js_named_input(code) == Some(OsInput::Key(0x83, "F20")));
    } else if code == "F21"@ {
        assert(js_named_input(code) == Some(OsInput::Key(0x84, "F21")));
    } else if code == "F22"@ {
        assert(js_named_input(code) == Some(OsInput::Key(0x85, "F22")));
    } else if code == "F23"@ {
        assert(js_named_input(code) == Some(OsInput::Key(0x86, "F23")));
    } else if code == "F24"@ {
        assert(js_named_input(code) == Some(OsInput::Key(0x87, "F24")));
    }
}

proof fn lemma_keys_of_navigation(code: Seq<char>)
    requires
        table_literals_known(),
        code == "ArrowUp"@ || code == "Up"@ || code == "ArrowDown"@ || code == "Down"@ || code == "ArrowLeft"@ || code == "Left"@ || code == "ArrowRight"@ || code == "Right"@ || code == "Home"@ || code == "End"@ || code == "PageUp"@ || code == "Prior"@ || code == "PageDown"@ || code == "Next"@ || code == "Insert"@ || code == "Delete"@,
    ensures
        key_class(code) matches Some(k) && js_named_input(code) is Some && js_named_input(code) == js_named_input(k)
            && canonical_of(js_named_input(code).unwrap()) == k,
        !(code.len() >= 3 && code[0] == 'V' && code[1] == 'K' && code[2] == '_'),
{
    if code == "ArrowUp"@ || code == "Up"@ {
        assert(js_named_input(code) == Some(OsInput::Key(0x26, "Up")));
    } else if code == "ArrowDown"@ || code == "Down"@ {
        assert(js_named_input(code) == Some(OsInput::Key(0x28, "Down")));
    } else if code == "ArrowLeft"@ || code == "Left"@ {
        assert(js_named_input(code) == Some(OsInput::Key(0x25, "Left")));
    } else if code == "ArrowRight"@ || code == "Right"@ {
        assert(js_named_input(code) == Some(OsInput::Key(0x27, "Right")));
    } else if code == "Home"@ {
        assert(js_named_input(code) == Some(OsInput::Key(0x24, "Home")));
    } else if code == "End"@ {
        assert(js_named_input(code) == Some(OsInput::Key(0x23, "End")));
    } else if code == "PageUp"@ || code == "Prior"@ {
        assert(js_named_input(code) == Some(OsInput::Key(0x21, "Prior")));
    } else if code == "PageDown"@ || code == "Next"@ {
        assert(js_named_input(code) == Some(OsInput::Key(0x22, "Next")));
    } else if code == "Insert"@ {
        assert(js_named_input(code) == Some(OsInput::Key(0x2D, "Insert")));
    } else if code == "Delete"@ {
        assert(js_named_input(code) == Some(OsInput::Key(0x2E, "Delete")));
    }
}

proof fn lemma_keys_of_editing(code: Seq<char>)
    requires
        table_literals_known(),
        code == "Enter"@ || code == "Return"@ || code == "Backspace"@ || code == "Tab"@ || code == "Escape"@ || code == "Esc"@ || code == "Space"@,
    ensures
        key_class(code) matches Some(k) && js_named_input(code) is Some && js_named_input(code) == js_named_input(k)
            && canonical_of(js_named_input(code).unwrap()) == k,
        !(code.len() >= 3 && code[0] == 'V' && code[1] == 'K' && code[2] == '_'),
{
    if code == "Enter"@ || code == "Return"@ {
        assert(js_named_input(code) == Some(OsInput::Key(0x0D, "Return")));
    } else if code == "Backspace"@ {
        assert(js_named_input(code) == Some(OsInput::Key(0x08, "BackSpace")));
    } else if code == "Tab"@ {
        assert(js_named_input(code) == Some(OsInput::Key(0x09, "Tab")));
    } else if code == "Escape"@ || code == "Esc"@ {
        assert(js_named_input(code) == Some(OsInput::Key(0x1B, "Escape")));
    } else if code == "Space"@ {
        assert(js_named_input(code) == Some(OsInput::Key(0x20, "space")));
    }
}

proof fn lemma_keys_of_locks(code: Seq<char>)
    requires
        table_literals_known(),
        code == "CapsLock"@ || code == "NumLock"@ || code == "ScrollLock"@,
    ensures
        key_class(code) matches Some(k) && js_named_input(code) is Some && js_named_input(code) == js_named_input(k)
            && canonical_of(js_named_input(code).unwrap()) == k,
        !(code.len() >= 3 && code[0] == 'V' && code[1] == 'K' && code[2] == '_'),
{
    if code == "CapsLock"@ {
        assert(js_named_input(code) == Some(OsInput::Key(0x14, "Caps_Lock")));
    } else if code == "NumLock"@ {
        assert(js_named_input(code) == Some(OsInput::Key(0x90, "Num_Lock")));
    } else if code == "ScrollLock"@ {
        assert(js_named_input(code) == Some(OsInput::Key(0x91, "Scroll_Lock")));
    }
}

proof fn lemma_keys_of_numpad(code: Seq<char>)
    requires
        table_literals_known(),
        code == "Numpad0"@ || code == "Num0"@ || code == "Numpad1"@ || code == "Num1"@ || code == "Numpad2"@ || code == "Num2"@ || code == "Numpad3"@ || code == "Num3"@ || code == "Numpad4"@ || code == "Num4"@ || code == "Numpad5"@ || code == "Num5"@ || code == "Numpad6"@ || code == "Num6"@ || code == "Numpad7"@ || code == "Num7"@ || code == "Numpad8"@ || code == "Num8"@ || code == "Numpad9"@ || code == "Num9"@ || code == "NumpadMultiply"@ || code == "NumMultiply"@ || code == "NumpadAdd"@ || code == "NumAdd"@ || code == "NumpadSubtract"@ || code == "NumSubtract"@ || code == "NumpadDecimal"@ || code == "NumDecimal"@ || code == "NumpadDivide"@ || code == "NumDivide"@ || code == "NumpadEnter"@ || code == "NumEnter"@ || code == "NumpadSeparator"@ || code == "NumSeparator"@,
    ensures
        key_class(code) matches Some(k) && js_named_input(code) is Some && js_named_input(code) == js_named_input(k)
            && canonical_of(js_named_input(code).unwrap()) == k,
        !(code.len() >= 3 && code[0] == 'V' && code[1] == 'K' && code[2] == '_'),
{
    if code == "Numpad0"@ || code == "Num0"@ {
        assert(js_named_input(code) == Some(OsInput::Key(0x60, "KP_0")));
    } else if code == "Numpad1"@ || code == "Num1"@ {
        assert(js_named_input(code) == Some(OsInput::Key(0x61, "KP_1")));
    } else if code == "Numpad2"@ || code == "Num2"@ {
        assert(js_named_input(code) == Some(OsInput::Key(0x62, "KP_2")));
    } else if code == "Numpad3"@ || code == "Num3"@ {
        assert(js_named_input(code) == Some(OsInput::Key(0x63, "KP_3")));
    } else if code == "Numpad4"@ || code == "Num4"@ {
        assert(js_named_input(code) == Some(OsInput::Key(0x64, "KP_4")));
    } else if code == "Numpad5"@ || code == "Num5"@ {
        assert(js_named_input(code) == Some(OsInput::Key(0x65, "KP_5")));
    } else if code == "Numpad6"@ || code == "Num6"@ {
        assert(js_named_input(code) == Some(OsInput::Key(0x66, "KP_6")));
    } else if code == "Numpad7"@ || code == "Num7"@ {
        assert(js_named_input(code) == Some(OsInput::Key(0x67, "KP_7")));
    } else if code == "Numpad8"@ || code == "Num8"@ {
        assert(js_named_input(code) == Some(OsInput::Key(0x68, "KP_8")));
    } else if code == "Numpad9"@ || code == "Num9"@ {
        assert(js_named_input(code) == Some(OsInput::Key(0x69, "KP_9")));
    } else if code == "NumpadMultiply"@ || code == "NumMultiply"@ {
        assert(js_named_input(code) == Some(OsInput::Key(0x6A, "KP_Multiply")));
    } else if code == "NumpadAdd"@ || code == "NumAdd"@ {
        assert(js_named_input(code) == Some(OsInput::Key(0x6B, "KP_Add")));
    } else if code == "NumpadSubtract"@ || code == "NumSubtract"@ {
        assert(js_named_input(code) == Some(OsInput::Key(0x6D, "KP_Subtract")));
    } else if code == "NumpadDecimal"@ || code == "NumDecimal"@ {
        assert(js_named_input(code) == Some(OsInput::Key(0x6E, "KP_Decimal")));
    } else if code == "NumpadDivide"@ || code == "NumDivide"@ {
        assert(js_named_input(code) == Some(OsInput::Key(0x6F, "KP_Divide")));
    } else if code == "NumpadEnter"@ || code == "NumEnter"@ {
        assert(js_named_input(code) == Some(OsInput::Key(0x0D, "KP_Enter")));
    } else if code == "NumpadSeparator"@ || code == "NumSeparator"@ {
        assert(js_named_input(code) == Some(OsInput::Key(0x6C, "KP_Separator")));
    }
}

proof fn lemma_keys_of_media(code: Seq<char>)
    requires
        table_literals_known(),
        code == "AudioVolumeMute"@ || code == "VolumeMute"@ || code == "AudioVolumeDown"@ || code == "VolumeDown"@ || code == "AudioVolumeUp"@ || code == "VolumeUp"@ || code == "MediaPlayPause"@ || code == "MediaStop"@ || code == "MediaTrackNext"@ || code == "MediaNext"@ || code == "MediaTrackPrevious"@ || code == "MediaPrevious"@ || code == "MediaSelect"@ || code == "LaunchMail"@ || code == "LaunchApp1"@ || code == "LaunchApp2"@,
    ensures
        key_class(code) matches Some(k) && js_named_input(code) is Some && js_named_input(code) == js_named_input(k)
            && canonical_of(js_named_input(code).unwrap()) == k,
        !(code.len() >= 3 && code[0] == 'V' && code[1] == 'K' && code[2] == '_'),
{
    if code == "AudioVolumeMute"@ || code == "VolumeMute"@ {
        assert(js_named_input(code) == Some(OsInput::Key(0xAD, "XF86AudioMute")));
    } else if code == "AudioVolumeDown"@ || code == "VolumeDown"@ {
        assert(js_named_input(code) == Some(OsInput::Key(0xAE, "XF86AudioLowerVolume")));
    } else if code == "AudioVolumeUp"@ || code == "VolumeUp"@ {
        assert(js_named_input(code) == Some(OsInput::Key(0xAF, "XF86AudioRaiseVolume")));
    } else if code == "MediaPlayPause"@ {
        assert(js_named_input(code) == Some(OsInput::Key(0xB3, "XF86AudioPlay")));
    } else if code == "MediaStop"@ {
        assert(js_named_input(code) == Some(OsInput::Key(0xB2, "XF86AudioStop")));
    } else if code == "MediaTrackNext"@ || code == "MediaNext"@ {
        assert(js_named_input(code) == Some(OsInput::Key(0xB0, "XF86AudioNext")));
    } else if code == "MediaTrackPrevious"@ || code == "MediaPrevious"@ {
        assert(js_named_input(code) == Some(OsInput::Key(0xB1, "XF86AudioPrev")));
    } else if code == "MediaSelect"@ {
        assert(js_named_input(code) == Some(OsInput::Key(0xB5, "XF86AudioMedia")));
    } else if code == "LaunchMail"@ {
        assert(js_named_input(code) == Some(OsInput::Key(0xB4, "XF86Mail")));
    } else if code == "LaunchApp1"@ {
        assert(js_named_input(code) == Some(OsInput::Key(0xB6, "XF86Launch1")));
    } else if code == "LaunchApp2"@ {
        assert(js_named_input(code) == Some(OsInput::Key(0xB7, "XF86Launch2")));
    }
}

proof fn lemma_keys_of_browser(code: Seq<char>)
    requires
        table_literals_known(),
        code == "BrowserBack"@ || code == "BrowserForward"@ || code == "BrowserRefresh"@ || code == "BrowserStop"@ || code == "BrowserSearch"@ || code == "BrowserFavorites"@ || code == "BrowserHome"@,
    ensures
        key_class(code) matches Some(k) && js_named_input(code) is Some && js_named_input(code) == js_named_input(k)
            && canonical_of(js_named_input(code).unwrap()) == k,
        !(code.len() >= 3 && code[0] == 'V' && code[1] == 'K' && code[2] == '_'),
{
    if code == "BrowserBack"@ {
        assert(js_named_input(code) == Some(OsInput::Key(0xA6, "XF86Back")));
    } else if code == "BrowserForward"@ {
        assert(js_named_input(code) == Some(OsInput::Key(0xA7, "XF86Forward")));
    } else if code == "BrowserRefresh"@ {
        assert(js_named_input(code) == Some(OsInput::Key(0xA8, "XF86Refresh")));
    } else if code == "BrowserStop"@ {
        assert(js_named_input(code) == Some(OsInput::Key(0xA9, "XF86Stop")));
    } else if code == "BrowserSearch"@ {
        assert(js_named_input(code) == Some(OsInput::Key(0xAA, "XF86Search")));
    } else if code == "BrowserFavorites"@ {
        assert(js_named_input(code) == Some(OsInput::Key(0xAB, "XF86Favorites")));
    } else if code == "BrowserHome"@ {
        assert(js_named_input(code) == Some(OsInput::Key(0xAC, "XF86HomePage")));
    }
}

proof fn lemma_keys_of_punctuation(code: Seq<char>)
    requires
        table_literals_known(),
        code == "Semicolon"@ || code == "Equal"@ || code == "Comma"@ || code == "Minus"@ || code == "Period"@ || code == "Slash"@ || code == "Backquote"@ || code == "Grave"@ || code == "BracketLeft"@ || code == "Backslash"@ || code == "BracketRight"@ || code == "Quote"@,
    ensures
        key_class(code) matches Some(k) && js_named_input(code) is Some && js_named_input(code) == js_named_input(k)
            && canonical_of(js_named_input(code).unwrap()) == k,
        !(code.len() >= 3 && code[0] == 'V' && code[1] == 'K' && code[2] == '_'),
{
    if code == "Semicolon"@ {
        assert(js_named_input(code) == Some(OsInput::Key(0xBA, "semicolon")));
    } else if code == "Equal"@ {
        assert(js_named_input(code) == Some(OsInput::Key(0xBB, "equal")));
    } else if code == "Comma"@ {
        assert(js_named_input(code) == Some(OsInput::Key(0xBC, "comma")));
    } else if code == "Minus"@ {
        assert(js_named_input(code) == Some(OsInput::Key(0xBD, "minus")));
    } else if code == "Period"@ {
        assert(js_named_input(code) == Some(OsInput::Key(0xBE, "period")));
    } else if code == "Slash"@ {
        assert(js_named_input(code) == Some(OsInput::Key(0xBF, "slash")));
    } else if code == "Backquote"@ || code == "Grave"@ {
        assert(js_named_input(code) == Some(OsInput::Key(0xC0, "grave")));
    } else if code == "BracketLeft"@ {
        assert(js_named_input(code) == Some(OsInput::Key(0xDB, "bracketleft")));
    } else if code == "Backslash"@ {
        assert(js_named_input(code) == Some(OsInput::Key(0xDC, "backslash")));
    } else if code == "BracketRight"@ {
        assert(js_named_input(code) == Some(OsInput::Key(0xDD, "bracketright")));
    } else if code == "Quote"@ {
        assert(js_named_input(code) == Some(OsInput::Key(0xDE, "apostrophe")));
    }
}

proof fn lemma_keys_of_system(code: Seq<char>)
    requires
        table_literals_known(),
        code == "Pause"@ || code == "Break"@ || code == "PrintScreen"@ || code == "Snapshot"@ || code == "ContextMenu"@ || code == "Apps"@ || code == "Menu"@ || code == "Sleep"@ || code == "WakeUp"@,
    ensures
        key_class(code) matches Some(k) && js_named_input(code) is Some && js_named_input(code) == js_named_input(k)
            && canonical_of(js_named_input(code).unwrap()) == k,
        !(code.len() >= 3 && code[0] == 'V' && code[1] == 'K' && code[2] == '_'),
{
    if code == "Pause"@ || code == "Break"@ {
        assert(js_named_input(code) == Some(OsInput::Key(0x13, "Pause")));
    } else if code == "PrintScreen"@ || code == "Snapshot"@ {
        assert(js_named_input(code) == Some(OsInput::Key(0x2A, "Print")));
    } else if code == "ContextMenu"@ || code == "Apps"@ || code == "Menu"@ {
        assert(js_named_input(code) == Some(OsInput::Key(0x5D, "Menu")));
    } else if code == "Sleep"@ {
        assert(js_named_input(code) == Some(OsInput::Key(0x5F, "XF86Sleep")));
    } else if code == "WakeUp"@ {
        assert(js_named_input(code) == Some(OsInput::Key(0xE3, "XF86WakeUp")));
    }
}

proof fn lemma_keys_of_international(code: Seq<char>)
    requires
        table_literals_known(),
        code == "IntlBackslash"@ || code == "IntlRo"@ || code == "IntlYen"@,
    ensures
        key_class(code) matches Some(k) && js_named_input(code) is Some && js_named_input(code) == js_named_input(k)
            && canonical_of(js_named_input(code).unwrap()) == k,
        !(code.len() >= 3 && code[0] == 'V' && code[1] == 'K' && code[2] == '_'),
{
    if code == "IntlBackslash"@ {
        assert(js_named_input(code) == Some(OsInput::Key(0xE2, "backslash")));
    } else if code == "IntlRo"@ {
        assert(js_named_input(code) == Some(OsInput::Key(0xE1, "ro")));
    } else if code == "IntlYen"@ {
        assert(js_named_input(code) == Some(OsInput::Key(0xE3, "yen")));
    }
}

/// Every spelling of a key names the same input as the key's first code, and
/// that input is recognised as that key again; a code of no key names nothing.
proof fn lemma_key_class_input(code: Seq<char>)
    requires
        table_literals_known(),
    ensures
        key_class(code) is None ==> js_named_input(code) is None,
        key_class(code) matches Some(k) ==> {
            &&& js_named_input(code) is Some
            &&& js_named_input(code) == js_named_input(k)
            &&& canonical_of(js_named_input(code).unwrap()) == k
            &&& !(code.len() >= 3 && code[0] == 'V' && code[1] == 'K' && code[2] == '_')
        },
{
    if code == "Mouse0"@ || code == "Mouse1"@ || code == "Middle"@ || code == "Mouse2"@ || code == "Mouse3"@ || code == "X1"@ || code == "Back"@ || code == "Mouse4"@ || code == "X2"@ || code == "Forward"@ {
        lemma_keys_of_mouse(code);
    } else if code == "WheelUp"@ || code == "WheelDown"@ || code == "WheelLeft"@ || code == "WheelRight"@ {
        lemma_keys_of_wheel(code);
    } else if code == "ShiftLeft"@ || code == "ShiftRight"@ || code == "Shift"@ || code == "ControlLeft"@ || code == "ControlRight"@ || code == "Control"@ || code == "Ctrl"@ || code == "AltLeft"@ || code == "AltRight"@ || code == "Alt"@ || code == "MetaLeft"@ || code == "OSLeft"@ || code == "MetaRight"@ || code == "OSRight"@ || code == "Meta"@ || code == "OS"@ || code == "Win"@ || code == "Super"@ {
        lemma_keys_of_modifiers(code);
    } else if code == "KeyA"@ || code == "A"@ || code == "KeyB"@ || code == "B"@ || code == "KeyC"@ || code == "C"@ || code == "KeyD"@ || code == "D"@ || code == "KeyE"@ || code == "E"@ || code == "KeyF"@ || code == "F"@ || code == "KeyG"@ || code == "G"@ || code == "KeyH"@ || code == "H"@ || code == "KeyI"@ || code == "I"@ || code == "KeyJ"@ || code == "J"@ || code == "KeyK"@ || code == "K"@ || code == "KeyL"@ || code == "L"@ || code == "KeyM"@ || code == "M"@ || code == "KeyN"@ || code == "N"@ || code == "KeyO"@ || code == "O"@ || code == "KeyP"@ || code == "P"@ || code == "KeyQ"@ || code == "Q"@ || code == "KeyR"@ || code == "R"@ || code == "KeyS"@ || code == "S"@ || code == "KeyT"@ || code == "T"@ || code == "KeyU"@ || code == "U"@ || code == "KeyV"@ || code == "V"@ || code == "KeyW"@ || code == "W"@ || code == "KeyX"@ || code == "X"@ || code == "KeyY"@ || code == "Y"@ || code == "KeyZ"@ || code == "Z"@ {
        lemma_keys_of_letters(code);
    } else if code == "Digit0"@ || code == "D0"@ || code == "Digit1"@ || code == "D1"@ || code == "Digit2"@ || code == "D2"@ || code == "Digit3"@ || code == "D3"@ || code == "Digit4"@ || code == "D4"@ || code == "Digit5"@ || code == "D5"@ || code == "Digit6"@ || code == "D6"@ || code == "Digit7"@ || code == "D7"@ || code == "Digit8"@ || code == "D8"@ || code == "Digit9"@ || code == "D9"@ {
        lemma_keys_of_digits(code);
    } else if code == "F1"@ || code == "F2"@ || code == "F3"@ || code == "F4"@ || code == "F5"@ || code == "F6"@ || code == "F7"@ || code == "F8"@ || code == "F9"@ || code == "F10"@ || code == "F11"@ || code == "F12"@ || code == "F13"@ || code == "F14"@ || code == "F15"@ || code == "F16"@ || code == "F17"@ || code == "F18"@ || code == "F19"@ || code == "F20"@ || code == "F21"@ || code == "F22"@ || code == "F23"@ || code == "F24"@ {
        lemma_keys_of_function_keys(code);
    } else if code == "ArrowUp"@ || code == "Up"@ || code == "ArrowDown"@ || code == "Down"@ || code == "ArrowLeft"@ || code == "Left"@ || code == "ArrowRight"@ || code == "Right"@ || code == "Home"@ || code == "End"@ || code == "PageUp"@ || code == "Prior"@ || code == "PageDown"@ || code == "Next"@ || code == "Insert"@ || code == "Delete"@ {
        lemma_keys_of_navigation(code);
    } else if code == "Enter"@ || code == "Return"@ || code == "Backspace"@ || code == "Tab"@ || code == "Escape"@ || code == "Esc"@ || code == "Space"@ {
        lemma_keys_of_editing(code);
    } else if code == "CapsLock"@ || code == "NumLock"@ || code == "ScrollLock"@ {
        lemma_keys_of_locks(code);
    } else if code == "Numpad0"@ || code == "Num0"@ || code == "Numpad1"@ || code == "Num1"@ || code == "Numpad2"@ || code == "Num2"@ || code == "Numpad3"@ || code == "Num3"@ || code == "Numpad4"@ || code == "Num4"@ || code == "Numpad5"@ || code == "Num5"@ || code == "Numpad6"@ || code == "Num6"@ || code == "Numpad7"@ || code == "Num7"@ || code == "Numpad8"@ || code == "Num8"@ || code == "Numpad9"@ || code == "Num9"@ || code == "NumpadMultiply"@ || code == "NumMultiply"@ || code == "NumpadAdd"@ || code == "NumAdd"@ || code == "NumpadSubtract"@ || code == "NumSubtract"@ || code == "NumpadDecimal"@ || code == "NumDecimal"@ || code == "NumpadDivide"@ || code == "NumDivide"@ || code == "NumpadEnter"@ || code == "NumEnter"@ || code == "NumpadSeparator"@ || code == "NumSeparator"@ {
        lemma_keys_of_numpad(code);
    } else if code == "AudioVolumeMute"@ || code == "VolumeMute"@ || code == "AudioVolumeDown"@ || code == "VolumeDown"@ || code == "AudioVolumeUp"@ || code == "VolumeUp"@ || code == "MediaPlayPause"@ || code == "MediaStop"@ || code == "MediaTrackNext"@ || code == "MediaNext"@ || code == "MediaTrackPrevious"@ || code == "MediaPrevious"@ || code == "MediaSelect"@ || code == "LaunchMail"@ || code == "LaunchApp1"@ || code == "LaunchApp2"@ {
        lemma_keys_of_media(code);
    } else if code == "BrowserBack"@ || code == "BrowserForward"@ || code == "BrowserRefresh"@ || code == "BrowserStop"@ || code == "BrowserSearch"@ || code == "BrowserFavorites"@ || code == "BrowserHome"@ {
        lemma_keys_of_browser(code);
    } else if code == "Semicolon"@ || code == "Equal"@ || code == "Comma"@ || code == "Minus"@ || code == "Period"@ || code == "Slash"@ || code == "Backquote"@ || code == "Grave"@ || code == "BracketLeft"@ || code == "Backslash"@ || code == "BracketRight"@ || code == "Quote"@ {
        lemma_keys_of_punctuation(code);
    } else if code == "Pause"@ || code == "Break"@ || code == "PrintScreen"@ || code == "Snapshot"@ || code == "ContextMenu"@ || code == "Apps"@ || code == "Menu"@ || code == "Sleep"@ || code == "WakeUp"@ {
        lemma_keys_of_system(code);
    } else if code == "IntlBackslash"@ || code == "IntlRo"@ || code == "IntlYen"@ {
        lemma_keys_of_international(code);
    }
}

/// Distinct keys give distinct inputs: two codes that give the same input (other
/// than a raw `VK_` key) are spellings of one key, and spellings of one key give
/// the same input. So no keybind of one key fires on another.
pub proof fn lemma_distinct_keys_parse_apart(code1: Seq<char>, code2: Seq<char>)
    ensures
        (js_input(code1) matches Some(x) && !(x is OsSpecificKey) && js_input(code2) == js_input(code1))
            ==> key_class(code1) is Some && key_class(code2) == key_class(code1),
        (key_class(code1) is Some && key_class(code2) == key_class(code1)) ==> js_input(code1) == js_input(code2)
            && js_input(code1) is Some,
{
    lemma_table_literals();
    lemma_key_class_input(code1);
    lemma_key_class_input(code2);
    if !(code1.len() >= 3 && code1[0] == 'V' && code1[1] == 'K' && code1[2] == '_') {
        lemma_named_code(code1);
    } else {
        lemma_vk_code(code1);
    }
    if !(code2.len() >= 3 && code2[0] == 'V' && code2[1] == 'K' && code2[2] == '_') {
        lemma_named_code(code2);
    } else {
        lemma_vk_code(code2);
    }
}

/// A code that starts with `VK_` gives a raw key or nothing.
proof fn lemma_vk_code(code: Seq<char>)
    requires
        code.len() >= 3 && code[0] == 'V' && code[1] == 'K' && code[2] == '_',
    ensures
        js_input(code) is None || js_input(code) matches Some(OsInput::OsSpecificKey(_)),
{
    reveal_strlit("VK_");
    assert(code.subrange(0, 3) =~= "VK_"@);
}
} // verus!
