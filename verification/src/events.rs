//! The subset of windowing-system events the interactive capture flows
//! consume, reduced to plain values. Every other native event kind is
//! collapsed into `Other` and ignored.

use vstd::prelude::*;

verus! {

/// Button number of the primary (left) pointer button.
pub const BUTTON_PRIMARY: u32 = 1;

/// Button number of the secondary (right) pointer button.
pub const BUTTON_SECONDARY: u32 = 3;

/// Keycode of the Escape key.
pub const KEYCODE_ESCAPE: u32 = 9;

/// Keycode of the "q" key.
pub const KEYCODE_Q: u32 = 24;

/// An input or structural event, with pointer positions in screen (root)
/// coordinates.
#[derive(Clone, Copy, Debug, PartialEq, Eq, Structural)]
pub enum EventKind {
    ButtonPress { button: u32, x: i32, y: i32 },
    ButtonRelease { button: u32, x: i32, y: i32 },
    KeyPress { keycode: u32 },
    Motion { x: i32, y: i32 },
    DestroyWindow,
    Other,
}

impl EventKind {
    /// Whether this is a press of one of the recognized cancel keys.
    pub open spec fn is_cancel_key(self) -> bool {
        self matches EventKind::KeyPress { keycode } && (keycode == KEYCODE_ESCAPE || keycode
            == KEYCODE_Q)
    }

    /// Whether this is a pointer-motion event.
    pub open spec fn is_motion(self) -> bool {
        self is Motion
    }
}

} // verus!
