//! Discrete input events, delivered by an external event loop to the root
//! widget once per occurrence, in arrival order.
//!
//! A pointer event carries the pointer position together with the current
//! primary-button state; widgets detect press/release transitions by
//! tracking their own previous pressed state, so the event itself carries
//! no edge information.

use vstd::prelude::*;
use crate::geometry::Point;

verus! {

/// Scancode of the Up arrow key.
pub const K_UP: u8 = 0x48;

/// Scancode of the Down arrow key.
pub const K_DOWN: u8 = 0x50;

/// Scancode of the Enter key.
pub const K_ENTER: u8 = 0x1C;

/// A discrete input event.
#[derive(Clone, Copy, Debug, PartialEq, Eq, Structural)]
pub enum Event {
    /// Pointer position together with the current primary-button state.
    Mouse { point: Point, left_button: bool },
    /// A key went down; `scancode` identifies the key.
    KeyPressed { scancode: u8 },
    /// Scroll wheel movement; ignored by the widgets in this crate.
    Scroll { x: i32, y: i32 },
}

} // verus!
