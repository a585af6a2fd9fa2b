//! Where the host application wants an overlay widget.
use vstd::prelude::*;

verus! {

/// A rectangle of the screen, in pixels.
#[derive(Clone, Copy, Debug)]
pub struct WidgetBounds {
    pub x: i32,
    pub y: i32,
    pub width: u32,
    pub height: u32,
}

} // verus!
