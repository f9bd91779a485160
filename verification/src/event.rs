//! The input events that the camera reads.

use vstd::prelude::*;

verus! {

/// One input event. A frame delivers a finite ordered batch of them.
#[derive(Clone, Debug)]
pub enum Event {
    /// A key went down; `code` names the physical key, as in "KeyW".
    KeyDown { code: String },
    /// A key came up.
    KeyUp { code: String },
    /// A mouse button went down; button 0 is the primary one.
    MouseDown { button: usize },
    /// A mouse button came up.
    MouseUp { button: usize },
    /// The cursor moved to `(x, y)`, in pixels.
    MousePos { x: i32, y: i32 },
    /// Any other event; the camera ignores it.
    Other,
}

/// The button that starts and ends a drag.
pub const PRIMARY_BUTTON: usize = 0;

} // verus!
