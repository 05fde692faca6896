//! Mapping of the pressed buttons to the player's actions.

use vstd::prelude::*;

verus! {

/// The buttons read on a frame.
#[derive(Clone, Copy, PartialEq, Eq, Structural, Debug, Default)]
pub struct PressedButtons {
    pub key_w: bool,
    pub key_s: bool,
    pub key_a: bool,
    pub key_d: bool,
    pub arrow_up: bool,
    pub arrow_down: bool,
    pub arrow_left: bool,
    pub arrow_right: bool,
    /// Space went down on this frame.
    pub space_just_pressed: bool,
    /// The right mouse button went down on this frame.
    pub right_click_just_pressed: bool,
    /// The left mouse button went down on this frame.
    pub left_click_just_pressed: bool,
}

/// The actions of the player on a frame.
#[derive(Clone, Copy, PartialEq, Eq, Structural, Debug, Default)]
pub struct InputActions {
    pub up: bool,
    pub down: bool,
    pub left: bool,
    pub right: bool,
    pub jump: bool,
    /// Interaction with what is under the crosshair.
    pub pick: bool,
}

pub open spec fn actions_spec(b: PressedButtons) -> InputActions {
    InputActions {
        up: b.key_w || b.arrow_up,
        down: b.key_s || b.arrow_down,
        left: b.key_a || b.arrow_left,
        right: b.key_d || b.arrow_right,
        jump: b.space_just_pressed || b.right_click_just_pressed,
        pick: b.left_click_just_pressed,
    }
}

impl InputActions {
    /// WASD or the arrows move, space or the right button jumps, the left
    /// button picks.
    pub fn from_buttons(b: &PressedButtons) -> (a: Self)
        ensures
            a == actions_spec(*b),
    {
        InputActions {
            up: b.key_w || b.arrow_up,
            down: b.key_s || b.arrow_down,
            left: b.key_a || b.arrow_left,
            right: b.key_d || b.arrow_right,
            jump: b.space_just_pressed || b.right_click_just_pressed,
            pick: b.left_click_just_pressed,
        }
    }
}

} // verus!
