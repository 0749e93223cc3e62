//! Spotlight controller: the routing of scroll input between camera zoom and
//! spotlight radius, the radius animation, and the shader's parameters.
use vstd::prelude::*;
use crate::camera::{Point, Screen};
use crate::fixed::{
    clamp, clamp_to, decay, decayed, displacement, sat, saturate, travel, MICRO,
};
use crate::interaction::{InteractionState, RADIUS_MAX, RADIUS_MIN};

verus! {

/// Radius multiplier at the moment the spotlight engages, 5.0.
pub const PULSE_RADIUS: i64 = 5_000_000;

/// Radius velocity at the moment the spotlight engages, -15.0 per second.
pub const PULSE_VELOCITY: i64 = -15_000_000;

/// Rate constant of the radius velocity's decay, per second.
pub const RADIUS_DECAY_RATE: u8 = 4;

/// Where a frame's scroll input goes.
#[derive(Clone, Copy, Debug, PartialEq, Eq, Structural)]
pub enum ScrollRoute {
    /// Added to the zoom velocity.
    Zoom,
    /// Taken off the spotlight radius velocity.
    SpotlightRadius,
    /// Dropped.
    Ignored,
}

/// A colour with 8 bits per channel.
#[derive(Clone, Copy, Debug, PartialEq, Eq, Structural)]
pub struct Rgba {
    pub r: u8,
    pub g: u8,
    pub b: u8,
    pub a: u8,
}

/// What the spotlight shader is given each frame.
#[derive(Clone, Copy, Debug, PartialEq, Eq, Structural)]
pub struct ShaderUniforms {
    /// Colour toward which pixels outside the spotlight are blended.
    pub tint: Rgba,
    /// Cursor position with the y axis pointing up.
    pub cursor_position: Point,
    /// Multiplier of the shader's base radius.
    pub radius_multiplier: i64,
}

/// The routing table. Without the fine modifier the input zooms the camera,
/// whether or not the spotlight is on. With it, the input resizes the
/// spotlight if that is on, and goes nowhere if it is off.
pub open spec fn route_for(spotlight: bool, fine: bool) -> ScrollRoute {
    if !fine {
        ScrollRoute::Zoom
    } else if spotlight {
        ScrollRoute::SpotlightRadius
    } else {
        ScrollRoute::Ignored
    }
}

/// The state after `amount` went down `route`: exactly one velocity has
/// changed, or none.
pub open spec fn scroll_routed(
    state: InteractionState,
    amount: int,
    route: ScrollRoute,
) -> InteractionState {
    InteractionState {
        zoom_velocity: if route == ScrollRoute::Zoom {
            sat(state.zoom_velocity + amount)
        } else {
            state.zoom_velocity
        },
        zoom_pivot: state.zoom_pivot,
        pan_velocity: state.pan_velocity,
        spotlight_radius: state.spotlight_radius,
        spotlight_radius_velocity: if route == ScrollRoute::SpotlightRadius {
            sat(state.spotlight_radius_velocity - amount)
        } else {
            state.spotlight_radius_velocity
        },
    }
}

/// The state after the spotlight engaged: the radius starts wide and pulls
/// back fast, whatever it was.
pub open spec fn pulse_started(state: InteractionState) -> InteractionState {
    InteractionState {
        zoom_velocity: state.zoom_velocity,
        zoom_pivot: state.zoom_pivot,
        pan_velocity: state.pan_velocity,
        spotlight_radius: PULSE_RADIUS,
        spotlight_radius_velocity: PULSE_VELOCITY,
    }
}

/// The state after the radius animation's frame: the radius has moved by its
/// velocity, clamped to its range, and the velocity has decayed.
pub open spec fn radius_advanced(state: InteractionState, dt: int) -> InteractionState {
    InteractionState {
        zoom_velocity: state.zoom_velocity,
        zoom_pivot: state.zoom_pivot,
        pan_velocity: state.pan_velocity,
        spotlight_radius: clamp_to(
            state.spotlight_radius + travel(state.spotlight_radius_velocity as int, dt),
            RADIUS_MIN,
            RADIUS_MAX,
        ),
        spotlight_radius_velocity: decayed(
            state.spotlight_radius_velocity as int,
            dt,
            RADIUS_DECAY_RATE as int,
        ),
    }
}

/// The mouse position in the shader's space, whose y axis points up from the
/// bottom of the screen.
pub open spec fn cursor_flipped(mouse: Point, screen: Screen) -> Point {
    Point { x: mouse.x, y: sat(screen.height * MICRO - mouse.y) }
}

/// Colour behind the image while the spotlight is on: black at about three
/// quarters opacity.
pub open spec fn tint_color() -> Rgba {
    Rgba { r: 0, g: 0, b: 0, a: 190 }
}

/// Colour behind the image while the spotlight is off: opaque black.
pub open spec fn plain_color() -> Rgba {
    Rgba { r: 0, g: 0, b: 0, a: 255 }
}

/// What the shader is given for `state` and a mouse at `mouse`.
pub open spec fn uniforms_for(state: InteractionState, mouse: Point, screen: Screen) -> ShaderUniforms {
    ShaderUniforms {
        tint: tint_color(),
        cursor_position: cursor_flipped(mouse, screen),
        radius_multiplier: state.spotlight_radius,
    }
}

/// Decides where scroll input goes, from whether a spotlight key and whether
/// a fine-adjustment key is held.
pub fn route_scroll(spotlight: bool, fine: bool) -> (route: ScrollRoute)
    ensures
        route == route_for(spotlight, fine),
{
    if !fine {
        ScrollRoute::Zoom
    } else if spotlight {
        ScrollRoute::SpotlightRadius
    } else {
        ScrollRoute::Ignored
    }
}

/// Feeds `amount` to the velocity that `route` names: added for the zoom,
/// taken off for the radius, so that scrolling in shrinks the spotlight.
pub fn dispatch_scroll(state: &mut InteractionState, amount: i64, route: ScrollRoute)
    ensures
        *final(state) == scroll_routed(*old(state), amount as int, route),
        final(state).wf() == old(state).wf(),
{
    match route {
        ScrollRoute::Zoom => {
            state.zoom_velocity = saturate(state.zoom_velocity as i128 + amount as i128);
        },
        ScrollRoute::SpotlightRadius => {
            state.spotlight_radius_velocity = saturate(
                state.spotlight_radius_velocity as i128 - amount as i128,
            );
        },
        ScrollRoute::Ignored => {},
    }
}

/// Starts the pulse that plays as the spotlight engages.
pub fn engage_pulse(state: &mut InteractionState)
    ensures
        *final(state) == pulse_started(*old(state)),
        final(state).spotlight_radius == PULSE_RADIUS,
        final(state).spotlight_radius_velocity == PULSE_VELOCITY,
        final(state).wf(),
{
    state.spotlight_radius = PULSE_RADIUS;
    state.spotlight_radius_velocity = PULSE_VELOCITY;
}

/// The radius animation's frame. It runs whether or not the spotlight is
/// shown, so that the radius has settled when the spotlight comes back.
pub fn update_radius(state: &mut InteractionState, dt: u32)
    ensures
        *final(state) == radius_advanced(*old(state), dt as int),
        final(state).wf(),
{
    let moved: i128 = displacement(state.spotlight_radius_velocity, dt);
    state.spotlight_radius = clamp(state.spotlight_radius as i128 + moved, RADIUS_MIN, RADIUS_MAX);
    state.spotlight_radius_velocity = decay(state.spotlight_radius_velocity, dt, RADIUS_DECAY_RATE);
}

/// The mouse position as the shader wants it.
pub fn shader_cursor(mouse: Point, screen: Screen) -> (cursor: Point)
    ensures
        cursor == cursor_flipped(mouse, screen),
{
    assert(0 <= screen.height * MICRO <= 0xffff_ffff * MICRO) by (nonlinear_arith)
        requires
            0 <= screen.height <= 0xffff_ffff,
    ;
    let height: i128 = screen.height as i128 * MICRO as i128;
    Point { x: mouse.x, y: saturate(height - mouse.y as i128) }
}

/// The tint of the spotlight overlay.
pub fn spotlight_tint() -> (c: Rgba)
    ensures
        c == tint_color(),
{
    Rgba { r: 0, g: 0, b: 0, a: 190 }
}

/// The background without the spotlight.
pub fn plain_background() -> (c: Rgba)
    ensures
        c == plain_color(),
{
    Rgba { r: 0, g: 0, b: 0, a: 255 }
}

/// The three shader parameters for this frame.
pub fn shader_uniforms(state: &InteractionState, mouse: Point, screen: Screen) -> (u: ShaderUniforms)
    ensures
        u == uniforms_for(*state, mouse, screen),
{
    ShaderUniforms {
        tint: spotlight_tint(),
        cursor_position: shader_cursor(mouse, screen),
        radius_multiplier: state.spotlight_radius,
    }
}

} // verus!
