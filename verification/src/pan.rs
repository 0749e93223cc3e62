//! Pan controller: moves the camera's target by the pan keys, by dragging,
//! and by the momentum that a drag leaves behind.
use vstd::prelude::*;
use crate::camera::{lemma_world_scale_shrinks, world_coord, CameraState, Point};
use crate::fixed::{
    decay, decayed, displacement, magnitude, mul_div, sat, saturate, travel, MICRO,
};
use crate::input::{FrameInput, PanKeys};
use crate::interaction::InteractionState;

verus! {

/// Screen distance that one frame of a held pan key moves the view, 15
/// pixels, and the speed at or below which momentum stops.
pub const VELOCITY_THRESHOLD: i64 = 15_000_000;

/// Rate constant of the pan velocity's decay, per second.
pub const PAN_DECAY_RATE: u8 = 6;

/// The four pan directions.
#[derive(Clone, Copy, Debug, PartialEq, Eq, Structural)]
pub enum Direction {
    Left,
    Down,
    Up,
    Right,
}

/// The screen-space offset of each pan key. The view moves as if the screen
/// had been dragged by it: a positive x offset pans left.
pub open spec fn key_offset(direction: Direction) -> Point {
    match direction {
        Direction::Left => Point { x: VELOCITY_THRESHOLD, y: 0 },
        Direction::Down => Point { x: 0, y: (-VELOCITY_THRESHOLD) as i64 },
        Direction::Up => Point { x: 0, y: VELOCITY_THRESHOLD },
        Direction::Right => Point { x: (-VELOCITY_THRESHOLD) as i64, y: 0 },
    }
}

/// Along one axis, the world-space displacement that brings what was shown
/// `moved` before the mouse to the mouse: the world coordinate at
/// `mouse - moved` minus the one at `mouse`. It does not depend on where the
/// camera's target is.
pub open spec fn view_shift(zoom: int, center: int, mouse: int, moved: int) -> int {
    world_coord(zoom, 0, center, mouse - moved) - world_coord(zoom, 0, center, mouse)
}

/// Along the x axis, the sum of the displacements of the pan keys held.
pub open spec fn keys_shift_x(keys: PanKeys, zoom: int, center: int, mouse: int) -> int {
    (if keys.left {
        view_shift(zoom, center, mouse, key_offset(Direction::Left).x as int)
    } else {
        0
    }) + (if keys.down {
        view_shift(zoom, center, mouse, key_offset(Direction::Down).x as int)
    } else {
        0
    }) + (if keys.up {
        view_shift(zoom, center, mouse, key_offset(Direction::Up).x as int)
    } else {
        0
    }) + (if keys.right {
        view_shift(zoom, center, mouse, key_offset(Direction::Right).x as int)
    } else {
        0
    })
}

/// Along the y axis, the sum of the displacements of the pan keys held.
pub open spec fn keys_shift_y(keys: PanKeys, zoom: int, center: int, mouse: int) -> int {
    (if keys.left {
        view_shift(zoom, center, mouse, key_offset(Direction::Left).y as int)
    } else {
        0
    }) + (if keys.down {
        view_shift(zoom, center, mouse, key_offset(Direction::Down).y as int)
    } else {
        0
    }) + (if keys.up {
        view_shift(zoom, center, mouse, key_offset(Direction::Up).y as int)
    } else {
        0
    }) + (if keys.right {
        view_shift(zoom, center, mouse, key_offset(Direction::Right).y as int)
    } else {
        0
    })
}

/// The camera after the pan keys held have moved it.
pub open spec fn panned_by_keys(
    cam: CameraState,
    keys: PanKeys,
    center: Point,
    mouse: Point,
) -> CameraState {
    CameraState {
        target: Point {
            x: sat(
                cam.target.x + keys_shift_x(keys, cam.zoom as int, center.x as int, mouse.x as int),
            ),
            y: sat(
                cam.target.y + keys_shift_y(keys, cam.zoom as int, center.y as int, mouse.y as int),
            ),
        },
        zoom: cam.zoom,
    }
}

/// The camera after a frame of dragging: the world point that was under the
/// mouse before it moved by `mouse_delta` is under it again.
pub open spec fn dragged(
    cam: CameraState,
    center: Point,
    mouse: Point,
    mouse_delta: Point,
) -> CameraState {
    CameraState {
        target: Point {
            x: sat(
                cam.target.x + view_shift(
                    cam.zoom as int,
                    center.x as int,
                    mouse.x as int,
                    mouse_delta.x as int,
                ),
            ),
            y: sat(
                cam.target.y + view_shift(
                    cam.zoom as int,
                    center.y as int,
                    mouse.y as int,
                    mouse_delta.y as int,
                ),
            ),
        },
        zoom: cam.zoom,
    }
}

/// The velocity that a frame of dragging records: the frame's displacement
/// times the frames per second.
pub open spec fn drag_velocity(
    zoom: int,
    center: Point,
    mouse: Point,
    mouse_delta: Point,
    fps: int,
) -> Point {
    Point {
        x: sat(view_shift(zoom, center.x as int, mouse.x as int, mouse_delta.x as int) * fps),
        y: sat(view_shift(zoom, center.y as int, mouse.y as int, mouse_delta.y as int) * fps),
    }
}

/// Square of a velocity's magnitude.
pub open spec fn speed_squared(velocity: Point) -> int {
    velocity.x * velocity.x + velocity.y * velocity.y
}

/// Whether a velocity is fast enough for momentum: strictly above the
/// threshold.
pub open spec fn has_momentum(velocity: Point) -> bool {
    speed_squared(velocity) > VELOCITY_THRESHOLD * VELOCITY_THRESHOLD
}

/// The camera after coasting for `dt` microseconds at `velocity`.
pub open spec fn coasted(cam: CameraState, velocity: Point, dt: int) -> CameraState {
    CameraState {
        target: Point {
            x: sat(cam.target.x + travel(velocity.x as int, dt)),
            y: sat(cam.target.y + travel(velocity.y as int, dt)),
        },
        zoom: cam.zoom,
    }
}

/// A pan velocity after one step of decay.
pub open spec fn slowed(velocity: Point, dt: int) -> Point {
    Point {
        x: decayed(velocity.x as int, dt, PAN_DECAY_RATE as int),
        y: decayed(velocity.y as int, dt, PAN_DECAY_RATE as int),
    }
}

/// The camera after the pan controller's frame. The pan keys always apply.
/// On top of them a held primary button drags; without it, momentum coasts
/// while the velocity is above the threshold.
pub open spec fn pan_applied(
    cam: CameraState,
    state: InteractionState,
    input: FrameInput,
) -> CameraState {
    let center = input.screen.center_point();
    let keyed = panned_by_keys(cam, input.pan, center, input.mouse);
    if input.primary_down {
        dragged(keyed, center, input.mouse, input.mouse_delta)
    } else if has_momentum(state.pan_velocity) {
        coasted(keyed, state.pan_velocity, input.dt as int)
    } else {
        keyed
    }
}

/// The pan velocity after the pan controller's frame: what the drag
/// recorded, or the old one slowed while it is above the threshold, or the
/// old one as it is.
pub open spec fn pan_velocity_after(
    cam: CameraState,
    state: InteractionState,
    input: FrameInput,
) -> Point {
    if input.primary_down {
        drag_velocity(
            cam.zoom as int,
            input.screen.center_point(),
            input.mouse,
            input.mouse_delta,
            input.fps as int,
        )
    } else if has_momentum(state.pan_velocity) {
        slowed(state.pan_velocity, input.dt as int)
    } else {
        state.pan_velocity
    }
}

/// The interaction state after the pan controller's frame.
pub open spec fn pan_settled(
    cam: CameraState,
    state: InteractionState,
    input: FrameInput,
) -> InteractionState {
    InteractionState {
        zoom_velocity: state.zoom_velocity,
        zoom_pivot: state.zoom_pivot,
        pan_velocity: pan_velocity_after(cam, state, input),
        spotlight_radius: state.spotlight_radius,
        spotlight_radius_velocity: state.spotlight_radius_velocity,
    }
}

/// The screen-space offset of a pan key.
pub fn offset_of(direction: Direction) -> (offset: Point)
    ensures
        offset == key_offset(direction),
{
    match direction {
        Direction::Left => Point { x: VELOCITY_THRESHOLD, y: 0 },
        Direction::Down => Point { x: 0, y: -VELOCITY_THRESHOLD },
        Direction::Up => Point { x: 0, y: VELOCITY_THRESHOLD },
        Direction::Right => Point { x: -VELOCITY_THRESHOLD, y: 0 },
    }
}

/// Along one axis, the world-space displacement for a screen-space movement
/// of `moved` under a mouse at `mouse`.
pub fn shift_along(cam: &CameraState, center: i64, mouse: i64, moved: i64) -> (shift: i128)
    requires
        cam.wf(),
    ensures
        shift == view_shift(cam.zoom as int, center as int, mouse as int, moved as int),
        magnitude(shift as int) <= magnitude(mouse - moved - center) + magnitude(mouse - center),
{
    proof {
        lemma_world_scale_shrinks(mouse - moved, center as int, cam.zoom as int);
        lemma_world_scale_shrinks(mouse as int, center as int, cam.zoom as int);
    }
    let from: i128 = mul_div(
        mouse as i128 - moved as i128 - center as i128,
        MICRO as i128,
        cam.zoom as i128,
    );
    let to: i128 = mul_div(mouse as i128 - center as i128, MICRO as i128, cam.zoom as i128);
    from - to
}

/// The displacement of one pan key, or nothing if it is not held.
fn key_shift(cam: &CameraState, held: bool, center: Point, mouse: Point, direction: Direction) -> (shift:
    (i128, i128))
    requires
        cam.wf(),
    ensures
        shift.0 == if held {
            view_shift(
                cam.zoom as int,
                center.x as int,
                mouse.x as int,
                key_offset(direction).x as int,
            )
        } else {
            0
        },
        shift.1 == if held {
            view_shift(
                cam.zoom as int,
                center.y as int,
                mouse.y as int,
                key_offset(direction).y as int,
            )
        } else {
            0
        },
        magnitude(shift.0 as int) <= 0x4_0000_0000_0000_0000,
        magnitude(shift.1 as int) <= 0x4_0000_0000_0000_0000,
{
    if held {
        let offset = offset_of(direction);
        (
            shift_along(cam, center.x, mouse.x, offset.x),
            shift_along(cam, center.y, mouse.y, offset.y),
        )
    } else {
        (0, 0)
    }
}

/// Moves the target by the pan keys held. Each key contributes the world
/// distance that its screen offset spans at the current zoom, so the view
/// moves at the same apparent speed at every zoom level.
pub fn pan_with_keys(cam: &mut CameraState, keys: PanKeys, center: Point, mouse: Point)
    requires
        old(cam).wf(),
    ensures
        *final(cam) == panned_by_keys(*old(cam), keys, center, mouse),
        final(cam).wf(),
{
    let left = key_shift(cam, keys.left, center, mouse, Direction::Left);
    let down = key_shift(cam, keys.down, center, mouse, Direction::Down);
    let up = key_shift(cam, keys.up, center, mouse, Direction::Up);
    let right = key_shift(cam, keys.right, center, mouse, Direction::Right);
    let dx: i128 = left.0 + down.0 + up.0 + right.0;
    let dy: i128 = left.1 + down.1 + up.1 + right.1;
    cam.target = Point {
        x: saturate(cam.target.x as i128 + dx),
        y: saturate(cam.target.y as i128 + dy),
    };
}

/// A frame of dragging: moves the target so that the view follows the mouse,
/// and records the speed of that movement as the pan velocity.
pub fn drag(
    cam: &mut CameraState,
    state: &mut InteractionState,
    center: Point,
    mouse: Point,
    mouse_delta: Point,
    fps: u32,
)
    requires
        old(cam).wf(),
    ensures
        *final(cam) == dragged(*old(cam), center, mouse, mouse_delta),
        final(state).pan_velocity == drag_velocity(
            old(cam).zoom as int,
            center,
            mouse,
            mouse_delta,
            fps as int,
        ),
        final(state).zoom_velocity == old(state).zoom_velocity,
        final(state).zoom_pivot == old(state).zoom_pivot,
        final(state).spotlight_radius == old(state).spotlight_radius,
        final(state).spotlight_radius_velocity == old(state).spotlight_radius_velocity,
        final(cam).wf(),
{
    let dx: i128 = shift_along(cam, center.x, mouse.x, mouse_delta.x);
    let dy: i128 = shift_along(cam, center.y, mouse.y, mouse_delta.y);
    assert(magnitude(dx * fps) <= 0x4_0000_0000_0000_0000 * 0x1_0000_0000) by (nonlinear_arith)
        requires
            -0x4_0000_0000_0000_0000 <= dx <= 0x4_0000_0000_0000_0000,
            0 <= fps <= 0x1_0000_0000,
    ;
    assert(magnitude(dy * fps) <= 0x4_0000_0000_0000_0000 * 0x1_0000_0000) by (nonlinear_arith)
        requires
            -0x4_0000_0000_0000_0000 <= dy <= 0x4_0000_0000_0000_0000,
            0 <= fps <= 0x1_0000_0000,
    ;
    cam.target = Point {
        x: saturate(cam.target.x as i128 + dx),
        y: saturate(cam.target.y as i128 + dy),
    };
    state.pan_velocity = Point { x: saturate(dx * fps as i128), y: saturate(dy * fps as i128) };
}

/// Magnitude of an `i64`, which an `i64` cannot always hold.
fn magnitude_of(v: i64) -> (m: u128)
    ensures
        m == magnitude(v as int),
        m <= 0x8000_0000_0000_0000,
{
    if v >= 0 {
        v as u128
    } else {
        (-(v as i128)) as u128
    }
}

/// Whether `velocity` is strictly above the momentum threshold.
pub fn carries_momentum(velocity: Point) -> (moving: bool)
    ensures
        moving == has_momentum(velocity),
{
    let x: u128 = magnitude_of(velocity.x);
    let y: u128 = magnitude_of(velocity.y);
    assert(x * x == velocity.x * velocity.x && x * x <= 0x8000_0000_0000_0000
        * 0x8000_0000_0000_0000) by (nonlinear_arith)
        requires
            x == magnitude(velocity.x as int),
            x <= 0x8000_0000_0000_0000,
    ;
    assert(y * y == velocity.y * velocity.y && y * y <= 0x8000_0000_0000_0000
        * 0x8000_0000_0000_0000) by (nonlinear_arith)
        requires
            y == magnitude(velocity.y as int),
            y <= 0x8000_0000_0000_0000,
    ;
    let threshold: u128 = VELOCITY_THRESHOLD as u128;
    x * x + y * y > threshold * threshold
}

/// A frame of momentum: moves the target by the pan velocity, and lets the
/// velocity decay.
pub fn coast(cam: &mut CameraState, state: &mut InteractionState, dt: u32)
    requires
        old(cam).wf(),
    ensures
        *final(cam) == coasted(*old(cam), old(state).pan_velocity, dt as int),
        final(state).pan_velocity == slowed(old(state).pan_velocity, dt as int),
        final(state).zoom_velocity == old(state).zoom_velocity,
        final(state).zoom_pivot == old(state).zoom_pivot,
        final(state).spotlight_radius == old(state).spotlight_radius,
        final(state).spotlight_radius_velocity == old(state).spotlight_radius_velocity,
        final(cam).wf(),
{
    let velocity = state.pan_velocity;
    let dx: i128 = displacement(velocity.x, dt);
    let dy: i128 = displacement(velocity.y, dt);
    cam.target = Point {
        x: saturate(cam.target.x as i128 + dx),
        y: saturate(cam.target.y as i128 + dy),
    };
    state.pan_velocity = Point {
        x: decay(velocity.x, dt, PAN_DECAY_RATE),
        y: decay(velocity.y, dt, PAN_DECAY_RATE),
    };
}

/// The pan controller's frame.
pub fn update_pan(cam: &mut CameraState, state: &mut InteractionState, input: &FrameInput)
    requires
        old(cam).wf(),
    ensures
        *final(cam) == pan_applied(*old(cam), *old(state), *input),
        *final(state) == pan_settled(*old(cam), *old(state), *input),
        final(cam).wf(),
        final(state).wf() == old(state).wf(),
{
    let center = input.screen.center();
    pan_with_keys(cam, input.pan, center, input.mouse);
    if input.primary_down {
        drag(cam, state, center, input.mouse, input.mouse_delta, input.fps);
    } else if carries_momentum(state.pan_velocity) {
        coast(cam, state, input.dt);
    }
}

/// Momentum cutoff: with the primary button up and the pan velocity at or
/// below the threshold, the pan controller moves the camera by the pan keys
/// alone and leaves the velocity as it is, so the same holds in the next
/// frame. With no pan key held the camera does not move at all.
pub proof fn lemma_momentum_cutoff(cam: CameraState, state: InteractionState, input: FrameInput)
    requires
        !input.primary_down,
        speed_squared(state.pan_velocity) <= VELOCITY_THRESHOLD * VELOCITY_THRESHOLD,
    ensures
        pan_applied(cam, state, input) == panned_by_keys(
            cam,
            input.pan,
            input.screen.center_point(),
            input.mouse,
        ),
        pan_settled(cam, state, input) == state,
        !input.pan.left && !input.pan.down && !input.pan.up && !input.pan.right ==> pan_applied(
            cam,
            state,
            input,
        ) == cam,
{
}

/// While `dt` times the decay rate is at most one, a frame without dragging
/// does not increase the pan velocity's magnitude on either axis, and keeps
/// its direction.
pub proof fn lemma_pan_velocity_never_grows(
    cam: CameraState,
    state: InteractionState,
    input: FrameInput,
)
    requires
        !input.primary_down,
        input.dt * PAN_DECAY_RATE <= MICRO,
    ensures
        magnitude(pan_velocity_after(cam, state, input).x as int) <= magnitude(
            state.pan_velocity.x as int,
        ),
        magnitude(pan_velocity_after(cam, state, input).y as int) <= magnitude(
            state.pan_velocity.y as int,
        ),
        state.pan_velocity.x >= 0 ==> pan_velocity_after(cam, state, input).x >= 0,
        state.pan_velocity.x <= 0 ==> pan_velocity_after(cam, state, input).x <= 0,
        state.pan_velocity.y >= 0 ==> pan_velocity_after(cam, state, input).y >= 0,
        state.pan_velocity.y <= 0 ==> pan_velocity_after(cam, state, input).y <= 0,
{
    crate::fixed::lemma_decay_toward_zero(
        state.pan_velocity.x as int,
        input.dt as int,
        PAN_DECAY_RATE as int,
    );
    crate::fixed::lemma_decay_toward_zero(
        state.pan_velocity.y as int,
        input.dt as int,
        PAN_DECAY_RATE as int,
    );
}

} // verus!
