//! Decision logic of the window glue.
//!
//! The event loop and the pixel surface belong to the host's windowing
//! backend; what the core owns is the meaning of the events handed to the
//! platform and the packing of colors into surface words.

use vstd::prelude::*;

verus! {

/// An event delivered to the platform's window callback.
#[derive(Clone, Copy, Debug, PartialEq, Eq, Structural)]
pub enum WindowCallbackEvent {
    /// The event loop is idle: advance the platform.
    Update,
    /// The surface asks to be painted.
    Redraw,
    /// A key went down, by scancode.
    Keydown(u32),
    /// A key came up, by scancode.
    Keyup(u32),
}

/// The callback event for one keyboard input report.
pub fn key_event(pressed: bool, scancode: u32) -> (r: WindowCallbackEvent)
    ensures
        r == if pressed {
            WindowCallbackEvent::Keydown(scancode)
        } else {
            WindowCallbackEvent::Keyup(scancode)
        },
{
    if pressed {
        WindowCallbackEvent::Keydown(scancode)
    } else {
        WindowCallbackEvent::Keyup(scancode)
    }
}

/// Pack one color into the surface's word layout: alpha in the top byte,
/// then red, green, blue.
pub fn pack_argb(a: u8, r: u8, g: u8, b: u8) -> (w: u32)
    ensures
        w == a * 0x100_0000 + r * 0x1_0000 + g * 0x100 + b,
{
    (a as u32) * 0x100_0000 + (r as u32) * 0x1_0000 + (g as u32) * 0x100 + (b as u32)
}

} // verus!
