//! The input a frame hands to the network: cursor and action flags.

use vstd::prelude::*;
use crate::entity::{Offset, Point};

verus! {

/// The cursor's position in the world; `None` when it is outside the window.
#[derive(Clone, Copy, PartialEq, Eq, Structural, Debug)]
pub struct CursorWorldPosition {
    pub position: Option<Point>,
}

impl Default for CursorWorldPosition {
    fn default() -> (r: CursorWorldPosition)
        ensures
            r.position == None::<Point>,
    {
        CursorWorldPosition { position: None }
    }
}

/// The actions of the current frame, independent of the input device.
#[derive(Clone, Copy, PartialEq, Eq, Structural, Debug)]
pub struct InputActions {
    /// Direction for growth or camera movement; zero when there is none
    pub move_direction: Offset,
    /// Primary action just pressed this frame (select tip, confirm)
    pub primary_just_pressed: bool,
    /// Primary action currently held
    pub primary_held: bool,
    /// Secondary action just pressed this frame (cancel, alternative)
    pub secondary_just_pressed: bool,
    /// Secondary action currently held
    pub secondary_held: bool,
    /// Pause toggle just pressed this frame
    pub pause_just_pressed: bool,
    /// Camera zoom steps this frame; negative zooms out
    pub zoom_delta: i32,
}

impl InputActions {
    pub open spec fn cleared() -> InputActions {
        InputActions {
            move_direction: Offset { dx: 0, dy: 0 },
            primary_just_pressed: false,
            primary_held: false,
            secondary_just_pressed: false,
            secondary_held: false,
            pause_just_pressed: false,
            zoom_delta: 0,
        }
    }

    /// Whether any movement is asked for.
    pub fn has_movement(&self) -> (r: bool)
        ensures
            r == (self.move_direction != Offset { dx: 0, dy: 0 }),
    {
        self.move_direction.dx != 0 || self.move_direction.dy != 0
    }

    /// Clear every action, as at the start of a frame.
    pub fn clear(&mut self)
        ensures
            *final(self) == InputActions::cleared(),
    {
        *self = InputActions {
            move_direction: Offset { dx: 0, dy: 0 },
            primary_just_pressed: false,
            primary_held: false,
            secondary_just_pressed: false,
            secondary_held: false,
            pause_just_pressed: false,
            zoom_delta: 0,
        };
    }
}

/// Add `steps` of scrolling to the frame's zoom, held within one step either way.
pub fn update_scroll_input(steps: i32, actions: &mut InputActions)
    ensures
        *final(actions) == (InputActions {
            zoom_delta: if old(actions).zoom_delta + steps < -1 {
                -1i32
            } else if old(actions).zoom_delta + steps > 1 {
                1i32
            } else {
                (old(actions).zoom_delta + steps) as i32
            },
            ..*old(actions)
        }),
{
    let z: i64 = actions.zoom_delta as i64 + steps as i64;
    actions.zoom_delta = if z < -1 {
        -1
    } else if z > 1 {
        1
    } else {
        z as i32
    };
}

impl Default for InputActions {
    fn default() -> (r: InputActions)
        ensures
            r == InputActions::cleared(),
    {
        InputActions {
            move_direction: Offset { dx: 0, dy: 0 },
            primary_just_pressed: false,
            primary_held: false,
            secondary_just_pressed: false,
            secondary_held: false,
            pause_just_pressed: false,
            zoom_delta: 0,
        }
    }
}

} // verus!
