//! The debug overlay's state.

use vstd::prelude::*;

verus! {

/// The overlay that shows the frame rate and the camera's position.
#[derive(Debug)]
pub struct DebugInfo {
    visible: bool,
}

impl DebugInfo {
    /// Whether the overlay is shown.
    pub closed spec fn visible(&self) -> bool {
        self.visible
    }

    /// A visible overlay.
    pub fn new() -> (info: DebugInfo)
        ensures
            info.visible(),
    {
        DebugInfo { visible: true }
    }

    pub fn is_visible(&self) -> (visible: bool)
        ensures
            visible == self.visible(),
    {
        self.visible
    }
}

} // verus!
