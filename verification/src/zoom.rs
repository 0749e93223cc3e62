//! Zoom controller: turns a zoom velocity into a change of the camera's zoom
//! factor that keeps the world point under the pivot where it is.
use vstd::prelude::*;
use crate::camera::{
    lemma_world_scale_shrinks, world_coord, CameraState, Point, COORD_LIMIT, ZOOM_MAX, ZOOM_MIN,
};
use crate::fixed::{
    clamp, clamp_to, decay, decayed, displacement, magnitude, mul_div, sat,
    saturate, travel, trunc_div, MICRO,
};
use crate::interaction::InteractionState;

verus! {

/// A zoom velocity moves the camera only above this magnitude, 0.5 per
/// second, so that a camera at rest does not jitter.
pub const ZOOM_DEAD_ZONE: i64 = 500_000;

/// Rate constant of the zoom velocity's decay, per second.
pub const ZOOM_DECAY_RATE: u8 = 4;

/// What one frame of holding a zoom key adds to the scroll amount, 0.1.
pub const KEY_ZOOM_STEP: i64 = 100_000;

/// The frame's signed zoom input: the wheel's movement, plus one step for the
/// zoom-in key, minus one for the zoom-out key.
pub open spec fn scroll_total(wheel: int, zoom_in: bool, zoom_out: bool) -> i64 {
    sat(
        wheel + (if zoom_in {
            KEY_ZOOM_STEP as int
        } else {
            0
        }) - (if zoom_out {
            KEY_ZOOM_STEP as int
        } else {
            0
        }),
    )
}

/// The pivot of a zoom gesture: the centre of the screen when a zoom key
/// drives it, else the mouse.
pub open spec fn pivot_for(keyboard: bool, mouse: Point, center: Point) -> Point {
    if keyboard {
        center
    } else {
        mouse
    }
}

/// Whether a zoom velocity is outside the dead zone.
pub open spec fn zoom_engaged(velocity: int) -> bool {
    magnitude(velocity) > ZOOM_DEAD_ZONE
}

/// The zoom factor after `dt` microseconds at `velocity`.
pub open spec fn zoomed(zoom: int, velocity: int, dt: int) -> i64 {
    clamp_to(zoom + travel(velocity, dt), ZOOM_MIN, ZOOM_MAX)
}

/// Along one axis, how far the target moves to keep the pivot's world point
/// in place when the zoom factor changes.
pub open spec fn pivot_shift(pivot: int, center: int, zoom_before: int, zoom_after: int) -> int {
    trunc_div((pivot - center) * MICRO, zoom_before) - trunc_div(
        (pivot - center) * MICRO,
        zoom_after,
    )
}

/// The camera after one zoom step about `pivot`.
pub open spec fn camera_zoomed(
    cam: CameraState,
    velocity: int,
    pivot: Point,
    center: Point,
    dt: int,
) -> CameraState {
    let zoom = zoomed(cam.zoom as int, velocity, dt);
    CameraState {
        target: Point {
            x: sat(
                cam.target.x + pivot_shift(
                    pivot.x as int,
                    center.x as int,
                    cam.zoom as int,
                    zoom as int,
                ),
            ),
            y: sat(
                cam.target.y + pivot_shift(
                    pivot.y as int,
                    center.y as int,
                    cam.zoom as int,
                    zoom as int,
                ),
            ),
        },
        zoom,
    }
}

/// The camera after the zoom controller's frame: one zoom step if the
/// velocity is outside the dead zone, else unchanged.
pub open spec fn zoom_applied(
    cam: CameraState,
    state: InteractionState,
    center: Point,
    dt: int,
) -> CameraState {
    if zoom_engaged(state.zoom_velocity as int) {
        camera_zoomed(cam, state.zoom_velocity as int, state.zoom_pivot, center, dt)
    } else {
        cam
    }
}

/// The interaction state after the zoom controller's frame: the zoom velocity
/// has decayed, whether or not the camera moved.
pub open spec fn zoom_settled(state: InteractionState, dt: int) -> InteractionState {
    InteractionState {
        zoom_velocity: decayed(state.zoom_velocity as int, dt, ZOOM_DECAY_RATE as int),
        zoom_pivot: state.zoom_pivot,
        pan_velocity: state.pan_velocity,
        spotlight_radius: state.spotlight_radius,
        spotlight_radius_velocity: state.spotlight_radius_velocity,
    }
}

/// The frame's signed zoom input from the wheel and the two zoom keys.
pub fn scroll_amount(wheel: i64, zoom_in: bool, zoom_out: bool) -> (amount: i64)
    ensures
        amount == scroll_total(wheel as int, zoom_in, zoom_out),
{
    let mut total: i128 = wheel as i128;
    if zoom_in {
        total = total + KEY_ZOOM_STEP as i128;
    }
    if zoom_out {
        total = total - KEY_ZOOM_STEP as i128;
    }
    saturate(total)
}

/// The pivot of a zoom gesture that starts this frame.
pub fn pick_pivot(keyboard: bool, mouse: Point, center: Point) -> (pivot: Point)
    ensures
        pivot == pivot_for(keyboard, mouse, center),
{
    if keyboard {
        center
    } else {
        mouse
    }
}

/// Whether `velocity` is outside the dead zone.
pub fn is_engaged(velocity: i64) -> (engaged: bool)
    ensures
        engaged == zoom_engaged(velocity as int),
{
    velocity > ZOOM_DEAD_ZONE || velocity < -ZOOM_DEAD_ZONE
}

/// One zoom step: moves the zoom factor by `velocity * dt`, clamped to its
/// range, and shifts the target so that the world point under `pivot` stays
/// under it.
pub fn zoom_about(cam: &mut CameraState, velocity: i64, pivot: Point, center: Point, dt: u32)
    requires
        old(cam).wf(),
    ensures
        *final(cam) == camera_zoomed(*old(cam), velocity as int, pivot, center, dt as int),
        final(cam).wf(),
{
    let before: i128 = cam.zoom as i128;
    let moved: i128 = displacement(velocity, dt);
    let after: i64 = clamp(before + moved, ZOOM_MIN, ZOOM_MAX);
    let arm_x: i128 = pivot.x as i128 - center.x as i128;
    let arm_y: i128 = pivot.y as i128 - center.y as i128;
    let x0: i128 = mul_div(arm_x, MICRO as i128, before);
    let x1: i128 = mul_div(arm_x, MICRO as i128, after as i128);
    let y0: i128 = mul_div(arm_y, MICRO as i128, before);
    let y1: i128 = mul_div(arm_y, MICRO as i128, after as i128);
    cam.target = Point {
        x: saturate(cam.target.x as i128 + (x0 - x1)),
        y: saturate(cam.target.y as i128 + (y0 - y1)),
    };
    cam.zoom = after;
}

/// The zoom controller's frame: applies the zoom velocity to the camera when
/// it is outside the dead zone, then lets it decay.
pub fn update_zoom(cam: &mut CameraState, state: &mut InteractionState, center: Point, dt: u32)
    requires
        old(cam).wf(),
    ensures
        *final(cam) == zoom_applied(*old(cam), *old(state), center, dt as int),
        *final(state) == zoom_settled(*old(state), dt as int),
        final(cam).wf(),
        final(state).wf() == old(state).wf(),
{
    if is_engaged(state.zoom_velocity) {
        zoom_about(cam, state.zoom_velocity, state.zoom_pivot, center, dt);
    }
    state.zoom_velocity = decay(state.zoom_velocity, dt, ZOOM_DECAY_RATE);
}

/// Pivot lock, along one axis: after a zoom step the world coordinate under
/// the pivot is the one that was there before, moved by exactly what
/// saturation took off the target. While the target stays inside the range of
/// an `i64` that is nothing.
pub proof fn lemma_pivot_lock_coord(
    zoom_before: int,
    zoom_after: int,
    target: int,
    pivot: int,
    center: int,
)
    ensures
        ({
            let moved = target + pivot_shift(pivot, center, zoom_before, zoom_after);
            world_coord(zoom_after, sat(moved) as int, center, pivot) - world_coord(
                zoom_before,
                target,
                center,
                pivot,
            ) == sat(moved) - moved
        }),
{
}

/// Pivot lock: for a camera, a pivot and a screen centre within
/// [`COORD_LIMIT`](crate::camera::COORD_LIMIT), whatever the velocity and the
/// frame time, the world point under the pivot after a zoom step is the world
/// point that was under it before.
pub proof fn lemma_pivot_lock(cam: CameraState, velocity: int, pivot: Point, center: Point, dt: int)
    requires
        cam.wf(),
        cam.target.within(COORD_LIMIT as int),
        pivot.within(COORD_LIMIT as int),
        center.within(COORD_LIMIT as int),
    ensures
        camera_zoomed(cam, velocity, pivot, center, dt).world_at(center, pivot) == cam.world_at(
            center,
            pivot,
        ),
{
    let after = camera_zoomed(cam, velocity, pivot, center, dt);
    lemma_world_scale_shrinks(pivot.x as int, center.x as int, cam.zoom as int);
    lemma_world_scale_shrinks(pivot.x as int, center.x as int, after.zoom as int);
    lemma_world_scale_shrinks(pivot.y as int, center.y as int, cam.zoom as int);
    lemma_world_scale_shrinks(pivot.y as int, center.y as int, after.zoom as int);
    lemma_pivot_lock_coord(
        cam.zoom as int,
        after.zoom as int,
        cam.target.x as int,
        pivot.x as int,
        center.x as int,
    );
    lemma_pivot_lock_coord(
        cam.zoom as int,
        after.zoom as int,
        cam.target.y as int,
        pivot.y as int,
        center.y as int,
    );
}

} // verus!
