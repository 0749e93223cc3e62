//! Transient state of a run: velocities, the zoom pivot and the spotlight
//! radius.
use vstd::prelude::*;
use crate::camera::Point;

verus! {

/// Smallest spotlight radius multiplier, 0.3.
pub const RADIUS_MIN: i64 = 300_000;

/// Largest spotlight radius multiplier, 10.0.
pub const RADIUS_MAX: i64 = 10_000_000;

/// Spotlight radius multiplier at rest, 1.0.
pub const RADIUS_NEUTRAL: i64 = 1_000_000;

/// What input handling carries from one frame to the next.
#[derive(Clone, Copy, Debug, PartialEq, Eq, Structural)]
pub struct InteractionState {
    /// Rate of zoom change per second; decays toward zero.
    pub zoom_velocity: i64,
    /// Screen point that stays fixed while the zoom changes.
    pub zoom_pivot: Point,
    /// Momentum of the view after a drag, per second; decays toward zero.
    pub pan_velocity: Point,
    /// Multiplier of the spotlight's base radius.
    pub spotlight_radius: i64,
    /// Rate of change of the radius multiplier per second; decays toward zero.
    pub spotlight_radius_velocity: i64,
}

impl InteractionState {
    /// The radius multiplier lies in `[RADIUS_MIN, RADIUS_MAX]`.
    pub open spec fn wf(self) -> bool {
        RADIUS_MIN <= self.spotlight_radius <= RADIUS_MAX
    }

    /// The state before the first frame: everything at rest, the pivot under
    /// the mouse.
    pub open spec fn neutral(mouse: Point) -> InteractionState {
        InteractionState {
            zoom_velocity: 0,
            zoom_pivot: mouse,
            pan_velocity: Point { x: 0, y: 0 },
            spotlight_radius: RADIUS_NEUTRAL,
            spotlight_radius_velocity: 0,
        }
    }

    pub fn new(mouse: Point) -> (state: InteractionState)
        ensures
            state == InteractionState::neutral(mouse),
            state.wf(),
    {
        InteractionState {
            zoom_velocity: 0,
            zoom_pivot: mouse,
            pan_velocity: Point { x: 0, y: 0 },
            spotlight_radius: RADIUS_NEUTRAL,
            spotlight_radius_velocity: 0,
        }
    }

    /// Whether the radius multiplier lies in the allowed range.
    pub fn is_valid(&self) -> (ok: bool)
        ensures
            ok == self.wf(),
    {
        RADIUS_MIN <= self.spotlight_radius && self.spotlight_radius <= RADIUS_MAX
    }
}

} // verus!
