//! Per-frame input snapshots, as the host's input facade hands them over.
//!
//! The host polls the devices; this module only fixes the shape of what a
//! frame of input looks like and derives from it the quantities the
//! controllers work with: the direction vector of the held movement keys,
//! how many of them are held, and whether one was released this frame.

use vstd::prelude::*;

verus! {

/// One logical key's state within a frame.
#[derive(Clone, Copy, PartialEq, Eq, Structural, Debug)]
pub struct KeyState {
    /// The key is currently held down.
    pub pressed: bool,
    /// The key went up this frame.
    pub just_released: bool,
}

impl KeyState {
    /// A key that is neither held nor was released this frame.
    pub fn idle() -> (k: KeyState)
        ensures
            k == (KeyState { pressed: false, just_released: false }),
    {
        KeyState { pressed: false, just_released: false }
    }
}

/// Everything the input facade reports for one frame.
#[derive(Clone, Copy, PartialEq, Eq, Structural, Debug)]
pub struct InputSnapshot {
    /// Move toward what the player faces (the W key).
    pub forward: KeyState,
    /// Move away from what the player faces (the S key).
    pub back: KeyState,
    /// Strafe left (the A key).
    pub left: KeyState,
    /// Strafe right (the D key).
    pub right: KeyState,
    /// Move straight up (the space bar).
    pub rise: KeyState,
    /// Move straight down (the left shift key).
    pub descend: KeyState,
    /// The immediate-exit key (the P key) is held.
    pub quit_pressed: bool,
    /// The cursor-grab mouse button went down this frame.
    pub grab_just_pressed: bool,
    /// The arrow-up key is held; it narrows the field of view.
    pub arrow_up_pressed: bool,
    /// The arrow-down key is held; it widens the field of view.
    pub arrow_down_pressed: bool,
    /// Accumulated horizontal mouse motion since the last frame, in device
    /// counts; positive when the mouse moved right.
    pub mouse_delta_x: i64,
    /// Accumulated vertical mouse motion since the last frame, in device
    /// counts; positive when the mouse moved down.
    pub mouse_delta_y: i64,
}

impl InputSnapshot {
    /// A frame in which nothing was pressed, released or moved.
    pub fn idle() -> (s: InputSnapshot)
        ensures
            s == InputSnapshot::idle_spec(),
    {
        InputSnapshot {
            forward: KeyState::idle(),
            back: KeyState::idle(),
            left: KeyState::idle(),
            right: KeyState::idle(),
            rise: KeyState::idle(),
            descend: KeyState::idle(),
            quit_pressed: false,
            grab_just_pressed: false,
            arrow_up_pressed: false,
            arrow_down_pressed: false,
            mouse_delta_x: 0,
            mouse_delta_y: 0,
        }
    }

    /// The idle frame, for use in contracts.
    pub open spec fn idle_spec() -> InputSnapshot {
        InputSnapshot {
            forward: KeyState { pressed: false, just_released: false },
            back: KeyState { pressed: false, just_released: false },
            left: KeyState { pressed: false, just_released: false },
            right: KeyState { pressed: false, just_released: false },
            rise: KeyState { pressed: false, just_released: false },
            descend: KeyState { pressed: false, just_released: false },
            quit_pressed: false,
            grab_just_pressed: false,
            arrow_up_pressed: false,
            arrow_down_pressed: false,
            mouse_delta_x: 0,
            mouse_delta_y: 0,
        }
    }

    /// Sideways component of the held direction keys: right minus left.
    pub open spec fn dir_x(self) -> int {
        (if self.right.pressed { 1int } else { 0int })
            - (if self.left.pressed { 1int } else { 0int })
    }

    /// Vertical component of the held direction keys: rise minus descend.
    pub open spec fn dir_y(self) -> int {
        (if self.rise.pressed { 1int } else { 0int })
            - (if self.descend.pressed { 1int } else { 0int })
    }

    /// Depth component of the held direction keys: back minus forward
    /// (forward runs toward negative z).
    pub open spec fn dir_z(self) -> int {
        (if self.back.pressed { 1int } else { 0int })
            - (if self.forward.pressed { 1int } else { 0int })
    }

    /// How many of the six direction keys are held this frame.
    pub open spec fn held_direction_keys(self) -> int {
        (if self.forward.pressed { 1int } else { 0int })
            + (if self.back.pressed { 1int } else { 0int })
            + (if self.left.pressed { 1int } else { 0int })
            + (if self.right.pressed { 1int } else { 0int })
            + (if self.rise.pressed { 1int } else { 0int })
            + (if self.descend.pressed { 1int } else { 0int })
    }

    /// Some direction key finished being held this frame: it went up and
    /// was not pressed again. A key re-pressed within the frame counts as
    /// held, not as released.
    pub open spec fn any_direction_release(self) -> bool {
        ||| (self.forward.just_released && !self.forward.pressed)
        ||| (self.back.just_released && !self.back.pressed)
        ||| (self.left.just_released && !self.left.pressed)
        ||| (self.right.just_released && !self.right.pressed)
        ||| (self.rise.just_released && !self.rise.pressed)
        ||| (self.descend.just_released && !self.descend.pressed)
    }

    /// How many movement axes the held keys leave active; the squared
    /// length of the direction vector, since each component is -1, 0 or 1.
    pub open spec fn active_axes(self) -> int {
        (if self.dir_x() != 0 { 1int } else { 0int })
            + (if self.dir_y() != 0 { 1int } else { 0int })
            + (if self.dir_z() != 0 { 1int } else { 0int })
    }
}

} // verus!
