//! What the input devices report for one frame.

use vstd::prelude::*;
use crate::geometry::{ViewportPoint, WorldPoint};

verus! {

/// The state of the pointer in one frame, as the engine sampled it.
#[derive(Clone, Copy, Debug, PartialEq, Eq, Structural)]
pub struct FrameInput {
    /// Where the cursor is, or `None` while it is outside the window.
    pub cursor: Option<ViewportPoint>,
    /// Whether the left button went down in this very frame. A button that is
    /// held reports `true` in the first frame only.
    pub left_just_pressed: bool,
}

impl FrameInput {
    /// The point that a click of this frame aims at: the cursor's, if the
    /// button went down while the cursor was inside the window.
    pub open spec fn click_point(self) -> Option<ViewportPoint> {
        if self.left_just_pressed {
            self.cursor
        } else {
            None
        }
    }

    /// Whether this frame's click lands, given what the camera made of the
    /// cursor's point: the button went down, the cursor was inside the window,
    /// and the camera could map its point into the scene.
    pub open spec fn lands(self, mapped: Option<WorldPoint>) -> bool {
        self.click_point() is Some && mapped is Some
    }

    /// Where the cursor is, if it is inside the window.
    pub fn cursor_position(&self) -> (cursor: Option<ViewportPoint>)
        ensures
            cursor == self.cursor,
    {
        self.cursor
    }

    /// Whether the left button went down in this frame.
    pub fn left_button_just_pressed(&self) -> (pressed: bool)
        ensures
            pressed == self.left_just_pressed,
    {
        self.left_just_pressed
    }

    /// The window point that the camera has to map for this frame's click, or
    /// `None` where there is no click to handle.
    pub fn click_target(&self) -> (target: Option<ViewportPoint>)
        ensures
            target == self.click_point(),
    {
        if self.left_button_just_pressed() {
            self.cursor_position()
        } else {
            None
        }
    }
}

} // verus!
