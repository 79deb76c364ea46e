//! Which kind of controls the player uses.

use vstd::prelude::*;

verus! {

/// Keyboard and mouse, or the on-screen stick and buttons of a touch screen.
#[derive(Debug, Clone, Copy, PartialEq, Eq, Structural)]
pub enum ControlMode {
    KeyboardMouse,
    Touch,
}

impl ControlMode {
    /// The controls a game starts with: touch on a touch-screen platform,
    /// keyboard and mouse elsewhere.
    pub fn initial(touch_platform: bool) -> (m: ControlMode)
        ensures
            m == (if touch_platform {
                ControlMode::Touch
            } else {
                ControlMode::KeyboardMouse
            }),
    {
        if touch_platform {
            ControlMode::Touch
        } else {
            ControlMode::KeyboardMouse
        }
    }

    /// The controls after a frame: touching the screen switches to touch for
    /// good; otherwise the controls stay as they were.
    pub fn after_frame(self, screen_touched: bool) -> (m: ControlMode)
        ensures
            screen_touched ==> m == ControlMode::Touch,
            !screen_touched ==> m == self,
    {
        if screen_touched {
            ControlMode::Touch
        } else {
            self
        }
    }

    /// Whether the on-screen stick and buttons are shown.
    pub fn shows_touch_controls(self) -> (r: bool)
        ensures
            r == (self == ControlMode::Touch),
    {
        self == ControlMode::Touch
    }
}

} // verus!
