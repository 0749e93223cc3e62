//! One frame's raw input, as the window reports it.
use vstd::prelude::*;
use crate::camera::{Point, Screen};

verus! {

/// The left and the right key of a modifier.
#[derive(Clone, Copy, Debug, PartialEq, Eq, Structural)]
pub struct ModifierPair {
    pub left: bool,
    pub right: bool,
}

impl ModifierPair {
    pub open spec fn either(self) -> bool {
        self.left || self.right
    }

    /// Whether at least one of the two keys is set.
    pub fn any(&self) -> (set: bool)
        ensures
            set == self.either(),
    {
        self.left || self.right
    }
}

/// Which of the four pan keys are held.
#[derive(Clone, Copy, Debug, PartialEq, Eq, Structural)]
pub struct PanKeys {
    pub left: bool,
    pub down: bool,
    pub up: bool,
    pub right: bool,
}

/// Everything the engine reads in one frame.
#[derive(Clone, Copy, Debug, PartialEq, Eq, Structural)]
pub struct FrameInput {
    /// Mouse position on the screen.
    pub mouse: Point,
    /// Mouse movement since the previous frame.
    pub mouse_delta: Point,
    /// Vertical wheel movement, positive to zoom in.
    pub wheel: i64,
    /// Duration of the previous frame, in microseconds.
    pub dt: u32,
    /// Frames per second, as currently measured.
    pub fps: u32,
    /// Size of the window.
    pub screen: Screen,
    /// The spotlight keys that are held.
    pub spotlight_down: ModifierPair,
    /// The spotlight keys that went down in this frame.
    pub spotlight_pressed: ModifierPair,
    /// The fine-adjustment keys that are held.
    pub fine_down: ModifierPair,
    /// Whether the zoom-in key is held.
    pub zoom_in_down: bool,
    /// Whether the zoom-out key is held.
    pub zoom_out_down: bool,
    /// The pan keys that are held.
    pub pan: PanKeys,
    /// Whether the primary pointer button is held.
    pub primary_down: bool,
    /// Whether the secondary pointer button is held.
    pub secondary_down: bool,
}

impl FrameInput {
    /// A frame in which nothing is pressed, moved or scrolled.
    pub open spec fn quiet(mouse: Point, screen: Screen, dt: u32, fps: u32) -> FrameInput {
        FrameInput {
            mouse,
            mouse_delta: Point { x: 0, y: 0 },
            wheel: 0,
            dt,
            fps,
            screen,
            spotlight_down: ModifierPair { left: false, right: false },
            spotlight_pressed: ModifierPair { left: false, right: false },
            fine_down: ModifierPair { left: false, right: false },
            zoom_in_down: false,
            zoom_out_down: false,
            pan: PanKeys { left: false, down: false, up: false, right: false },
            primary_down: false,
            secondary_down: false,
        }
    }

    /// Whether no key or button is held, the wheel rests and the mouse did
    /// not move.
    pub open spec fn is_quiet(self) -> bool {
        self == FrameInput::quiet(self.mouse, self.screen, self.dt, self.fps)
    }

    pub fn idle(mouse: Point, screen: Screen, dt: u32, fps: u32) -> (input: FrameInput)
        ensures
            input == FrameInput::quiet(mouse, screen, dt, fps),
            input.is_quiet(),
    {
        FrameInput {
            mouse,
            mouse_delta: Point { x: 0, y: 0 },
            wheel: 0,
            dt,
            fps,
            screen,
            spotlight_down: ModifierPair { left: false, right: false },
            spotlight_pressed: ModifierPair { left: false, right: false },
            fine_down: ModifierPair { left: false, right: false },
            zoom_in_down: false,
            zoom_out_down: false,
            pan: PanKeys { left: false, down: false, up: false, right: false },
            primary_down: false,
            secondary_down: false,
        }
    }
}

} // verus!
