//! The window effects of Windows, as values: the accent policy that turns the
//! acrylic blur on or off, the frame bits of a native frame, and the choices
//! around the picture-in-picture window.
use vstd::prelude::*;
use crate::error::NativeError;
use crate::text::has_infix;

verus! {

/// `WS_THICKFRAME`
pub const WS_THICKFRAME: u32 = 0x0004_0000;
/// `WS_CAPTION`
pub const WS_CAPTION: u32 = 0x00C0_0000;
/// `WS_EX_TOPMOST`
pub const WS_EX_TOPMOST: u32 = 0x0000_0008;
/// `WS_CLIPCHILDREN`
pub const WS_CLIPCHILDREN: u32 = 0x0200_0000;
/// The first build of Windows where corner rounding can be turned off.
pub const ROUNDED_CORNERS_BUILD: u32 = 22523;
/// `WCA_ACCENT_POLICY`
pub const ACCENT_POLICY_ATTRIBUTE: u32 = 0x13;

/// A window handle must not be null.
pub fn check_hwnd(hwnd: i64) -> (r: Result<(), NativeError>)
    ensures
        r is Ok <==> hwnd != 0,
        r matches Err(e) ==> e == NativeError::InvalidWindowHandle,
{
    if hwnd == 0 {
        Err(NativeError::InvalidWindowHandle)
    } else {
        Ok(())
    }
}

/// The accent policy handed to `SetWindowCompositionAttribute`.
#[derive(Clone, Copy, Debug, PartialEq, Eq, Structural)]
pub struct AccentPolicy {
    pub accent_state: u32,
    pub accent_flags: u32,
    pub gradient_color: u32,
    pub animation_id: u32,
}

/// The gradient colour of an accent: red, green, blue and alpha from the low
/// byte up.
pub open spec fn pack_color(r: u8, g: u8, b: u8, a: u8) -> u32 {
    (r as u32) | ((g as u32) << 8u32) | ((b as u32) << 16u32) | ((a as u32) << 24u32)
}

/// The accent for the acrylic blur (state 4, no flags, the colour with an
/// alpha of at least 1) or for none (state 0, flag 2, the colour as given);
/// no colour is transparent black.
pub open spec fn spec_accent_policy(enable: bool, color: Option<(u8, u8, u8, u8)>) -> AccentPolicy {
    let c = match color {
        Some(c) => c,
        None => (0u8, 0u8, 0u8, 0u8),
    };
    let alpha = if enable && c.3 == 0 { 1u8 } else { c.3 };
    AccentPolicy {
        accent_state: if enable { 4 } else { 0 },
        accent_flags: if enable { 0 } else { 2 },
        gradient_color: pack_color(c.0, c.1, c.2, alpha),
        animation_id: 0,
    }
}

pub fn accent_policy(enable: bool, color: Option<(u8, u8, u8, u8)>) -> (r: AccentPolicy)
    ensures
        r == spec_accent_policy(enable, color),
{
    let c = match color {
        Some(c) => c,
        None => (0u8, 0u8, 0u8, 0u8),
    };
    let alpha: u8 = if enable && c.3 == 0 { 1 } else { c.3 };
    let gradient: u32 = (c.0 as u32) | ((c.1 as u32) << 8u32) | ((c.2 as u32) << 16u32) | ((alpha as u32) << 24u32);
    AccentPolicy {
        accent_state: if enable { 4 } else { 0 },
        accent_flags: if enable { 0 } else { 2 },
        gradient_color: gradient,
        animation_id: 0,
    }
}

/// Each byte of a packed colour reads back as given.
pub proof fn lemma_pack_color_bytes(r: u8, g: u8, b: u8, a: u8)
    ensures
        pack_color(r, g, b, a) & 0xff == r,
        (pack_color(r, g, b, a) >> 8u32) & 0xff == g,
        (pack_color(r, g, b, a) >> 16u32) & 0xff == b,
        pack_color(r, g, b, a) >> 24u32 == a,
{
    let (r32, g32, b32, a32) = (r as u32, g as u32, b as u32, a as u32);
    assert(r32 < 256 && g32 < 256 && b32 < 256 && a32 < 256);
    assert(((r32 | (g32 << 8u32) | (b32 << 16u32) | (a32 << 24u32)) & 0xff) == r32) by (bit_vector)
        requires r32 < 256, g32 < 256, b32 < 256, a32 < 256;
    assert((((r32 | (g32 << 8u32) | (b32 << 16u32) | (a32 << 24u32)) >> 8u32) & 0xff) == g32) by (bit_vector)
        requires r32 < 256, g32 < 256, b32 < 256, a32 < 256;
    assert((((r32 | (g32 << 8u32) | (b32 << 16u32) | (a32 << 24u32)) >> 16u32) & 0xff) == b32) by (bit_vector)
        requires r32 < 256, g32 < 256, b32 < 256, a32 < 256;
    assert(((r32 | (g32 << 8u32) | (b32 << 16u32) | (a32 << 24u32)) >> 24u32) == a32) by (bit_vector)
        requires r32 < 256, g32 < 256, b32 < 256, a32 < 256;
}

/// A window style with a sizing border and a caption.
pub fn with_native_frame(style: u32) -> (r: u32)
    ensures
        r == style | WS_THICKFRAME | WS_CAPTION,
        has_native_frame_spec(r),
{
    let r = style | WS_THICKFRAME | WS_CAPTION;
    assert(has_native_frame_spec(r)) by (bit_vector)
        requires r == style | 0x0004_0000u32 | 0x00C0_0000u32;
    r
}

pub open spec fn has_native_frame_spec(style: u32) -> bool {
    style & (WS_THICKFRAME | WS_CAPTION) == (WS_THICKFRAME | WS_CAPTION)
}

/// Whether a style read back has both the sizing border and the caption.
pub fn has_native_frame(style: u32) -> (r: bool)
    ensures
        r == has_native_frame_spec(style),
{
    style & (WS_THICKFRAME | WS_CAPTION) == (WS_THICKFRAME | WS_CAPTION)
}

/// Whether the running build can turn corner rounding off.
pub fn is_at_least_build(current_build: u32, build: u32) -> (r: bool)
    ensures
        r == (current_build >= build),
{
    current_build >= build
}

/// A window of this process is the picture-in-picture window when it is
/// visible, clips its children, and its title does not name StreamQ.
pub open spec fn spec_is_pip_window(same_process: bool, visible: bool, style: i32, title: Seq<char>) -> bool {
    same_process && visible && (style & (WS_CLIPCHILDREN as i32)) != 0 && !has_infix(title, "StreamQ"@)
}

pub fn is_pip_window(same_process: bool, visible: bool, style: i32, title: &str) -> (r: bool)
    ensures
        r == spec_is_pip_window(same_process, visible, style, title@),
{
    same_process && visible && (style & (WS_CLIPCHILDREN as i32)) != 0 && !crate::text::str_contains(title, "StreamQ")
}

/// Reading the extended style failed: it read as zero and an error was recorded.
pub fn style_read_failed(ex_style: i32, last_error: u32) -> (r: Result<(), NativeError>)
    ensures
        r is Err <==> (ex_style == 0 && last_error != 0),
        r matches Err(NativeError::WindowEffectFailed(m)) ==> m@ == "Failed to get window style"@,
        r is Err ==> r matches Err(NativeError::WindowEffectFailed(_)),
{
    if ex_style == 0 && last_error != 0 {
        Err(NativeError::WindowEffectFailed("Failed to get window style".to_owned()))
    } else {
        Ok(())
    }
}

/// The extended style that puts the window on top or takes it off, or none
/// when it already is as asked. Taking it off sets every other bit, as the
/// complement of `WS_EX_TOPMOST` is or-ed in.
pub open spec fn spec_topmost_style(ex_style: i32, on_top: bool) -> Option<i32> {
    let is_on_top = (ex_style & (WS_EX_TOPMOST as i32)) != 0;
    if on_top == is_on_top {
        None
    } else if on_top {
        Some(ex_style | (WS_EX_TOPMOST as i32))
    } else {
        Some(ex_style | ((!WS_EX_TOPMOST) as i32))
    }
}

/// Asking for the top leaves a window already on top as it is and otherwise
/// sets the topmost bit, keeping every other bit.
pub proof fn lemma_topmost_sets_bit(ex_style: i32)
    ensures
        ((ex_style & 8i32) != 0) ==> spec_topmost_style(ex_style, true) is None,
        ((ex_style & 8i32) == 0) ==> (spec_topmost_style(ex_style, true) matches Some(v)
            && (v & 8i32) != 0 && (v & !8i32) == (ex_style & !8i32)),
{
    assert(WS_EX_TOPMOST as i32 == 8i32);
    let v = ex_style | 8i32;
    assert((v & 8i32) != 0 && (v & !8i32) == (ex_style & !8i32)) by (bit_vector)
        requires v == ex_style | 8i32;
}

pub fn topmost_style(ex_style: i32, on_top: bool) -> (r: Option<i32>)
    ensures
        r == spec_topmost_style(ex_style, on_top),
{
    let is_on_top = (ex_style & (WS_EX_TOPMOST as i32)) != 0;
    if on_top == is_on_top {
        None
    } else if on_top {
        Some(ex_style | (WS_EX_TOPMOST as i32))
    } else {
        Some(ex_style | ((!WS_EX_TOPMOST) as i32))
    }
}

/// The window effects of one host window.
pub struct WindowManager;

impl WindowManager {
    pub fn new(config: crate::config::Config) -> (r: WindowManager) {
        WindowManager
    }
}

} // verus!
