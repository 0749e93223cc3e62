//! Camera state and the transform between screen space and world space.
//!
//! Screen space is the window's pixel grid, origin top-left, y down. World
//! space is the captured image's own coordinate system. A camera shows its
//! `target` at the centre of the screen, magnified by `zoom`.
use vstd::prelude::*;
use crate::fixed::{
    clamp, clamp_to, lemma_trunc_div_bounds, magnitude, mul_div, sat, saturate, trunc_div, MICRO,
};

verus! {

/// Smallest zoom factor, 1.0.
pub const ZOOM_MIN: i64 = 1_000_000;

/// Largest zoom factor, 10.0.
pub const ZOOM_MAX: i64 = 10_000_000;

/// Coordinates up to this magnitude pass through both transforms without
/// saturating.
pub const COORD_LIMIT: i64 = 0x0400_0000_0000_0000;

/// A point or a displacement, in millionths of a pixel.
#[derive(Clone, Copy, Debug, PartialEq, Eq, Structural)]
pub struct Point {
    pub x: i64,
    pub y: i64,
}

impl Point {
    /// Both coordinates are at most `limit` in magnitude.
    pub open spec fn within(self, limit: int) -> bool {
        &&& -limit <= self.x <= limit
        &&& -limit <= self.y <= limit
    }

    pub fn new(x: i64, y: i64) -> (p: Point)
        ensures
            p == (Point { x, y }),
    {
        Point { x, y }
    }

    /// The point at whole pixel coordinates.
    pub fn from_pixels(x: i32, y: i32) -> (p: Point)
        ensures
            p.x == x * MICRO,
            p.y == y * MICRO,
    {
        Point { x: x as i64 * MICRO, y: y as i64 * MICRO }
    }
}

/// Size of the window, in whole pixels.
#[derive(Clone, Copy, Debug, PartialEq, Eq, Structural)]
pub struct Screen {
    pub width: u32,
    pub height: u32,
}

impl Screen {
    /// The pixel at half the width and half the height, each halved as a
    /// whole number.
    pub open spec fn center_point(self) -> Point {
        Point { x: ((self.width / 2) * MICRO) as i64, y: ((self.height / 2) * MICRO) as i64 }
    }

    pub fn center(&self) -> (c: Point)
        ensures
            c == self.center_point(),
            c.x == (self.width / 2) * MICRO,
            c.y == (self.height / 2) * MICRO,
            c.within(COORD_LIMIT as int),
    {
        let half_width: i64 = (self.width / 2) as i64;
        let half_height: i64 = (self.height / 2) as i64;
        Point { x: half_width * MICRO, y: half_height * MICRO }
    }
}

/// World coordinate shown at screen coordinate `screen`, along one axis.
pub open spec fn world_coord(zoom: int, target: int, center: int, screen: int) -> int {
    trunc_div((screen - center) * MICRO, zoom) + target
}

/// Screen coordinate at which world coordinate `world` is shown, along one
/// axis.
pub open spec fn screen_coord(zoom: int, target: int, center: int, world: int) -> int {
    trunc_div((world - target) * zoom, MICRO as int) + center
}

/// The world-space point at the centre of the screen, and the magnification.
#[derive(Clone, Copy, Debug, PartialEq, Eq, Structural)]
pub struct CameraState {
    pub target: Point,
    pub zoom: i64,
}

impl CameraState {
    /// The zoom factor lies in `[ZOOM_MIN, ZOOM_MAX]`.
    pub open spec fn wf(self) -> bool {
        ZOOM_MIN <= self.zoom <= ZOOM_MAX
    }

    /// World-space point shown at screen point `p`.
    pub open spec fn world_at(self, center: Point, p: Point) -> Point {
        Point {
            x: sat(world_coord(self.zoom as int, self.target.x as int, center.x as int, p.x as int)),
            y: sat(world_coord(self.zoom as int, self.target.y as int, center.y as int, p.y as int)),
        }
    }

    /// Screen point at which world-space point `p` is shown.
    pub open spec fn screen_at(self, center: Point, p: Point) -> Point {
        Point {
            x: sat(
                screen_coord(self.zoom as int, self.target.x as int, center.x as int, p.x as int),
            ),
            y: sat(
                screen_coord(self.zoom as int, self.target.y as int, center.y as int, p.y as int),
            ),
        }
    }

    /// A camera at zoom 1.0 that shows `target` at the centre of the screen.
    pub fn new(target: Point) -> (cam: CameraState)
        ensures
            cam == (CameraState { target, zoom: ZOOM_MIN }),
            cam.wf(),
    {
        CameraState { target, zoom: ZOOM_MIN }
    }

    /// The target of a camera at zoom 1.0 that shows `origin` at the top-left
    /// corner of `screen`.
    pub open spec fn framing_target(origin: Point, screen: Screen) -> Point {
        Point {
            x: sat(origin.x + screen.center_point().x),
            y: sat(origin.y + screen.center_point().y),
        }
    }

    /// A camera at zoom 1.0 that shows the world point `origin` at the top-left
    /// corner of `screen`: the natural placement of an image region that
    /// starts at `origin` and has the screen's size.
    pub fn framing(origin: Point, screen: Screen) -> (cam: CameraState)
        ensures
            cam == (CameraState {
                target: CameraState::framing_target(origin, screen),
                zoom: ZOOM_MIN,
            }),
            cam.wf(),
            origin.within(COORD_LIMIT as int) ==> cam.world_at(
                screen.center_point(),
                Point { x: 0, y: 0 },
            ) == origin,
    {
        let center = screen.center();
        proof {
            crate::fixed::lemma_trunc_div_exact(-(center.x as int), MICRO as int);
            crate::fixed::lemma_trunc_div_exact(-(center.y as int), MICRO as int);
        }
        CameraState {
            target: Point {
                x: saturate(origin.x as i128 + center.x as i128),
                y: saturate(origin.y as i128 + center.y as i128),
            },
            zoom: ZOOM_MIN,
        }
    }

    /// A camera that shows `target` at the given zoom factor, clamped into the
    /// allowed range.
    pub fn with_zoom(target: Point, zoom: i64) -> (cam: CameraState)
        ensures
            cam.target == target,
            cam.zoom == clamp_to(zoom as int, ZOOM_MIN, ZOOM_MAX),
            cam.wf(),
    {
        CameraState { target, zoom: clamp(zoom as i128, ZOOM_MIN, ZOOM_MAX) }
    }

    /// Whether the zoom factor lies in the allowed range.
    pub fn is_valid(&self) -> (ok: bool)
        ensures
            ok == self.wf(),
    {
        ZOOM_MIN <= self.zoom && self.zoom <= ZOOM_MAX
    }

    /// Maps a screen point to the world point shown there.
    pub fn screen_to_world(&self, center: Point, p: Point) -> (w: Point)
        requires
            self.wf(),
        ensures
            w == self.world_at(center, p),
    {
        let x: i128 = mul_div(p.x as i128 - center.x as i128, MICRO as i128, self.zoom as i128);
        let y: i128 = mul_div(p.y as i128 - center.y as i128, MICRO as i128, self.zoom as i128);
        Point { x: saturate(x + self.target.x as i128), y: saturate(y + self.target.y as i128) }
    }

    /// Maps a world point to the screen point at which it is shown.
    pub fn world_to_screen(&self, center: Point, p: Point) -> (s: Point)
        requires
            self.wf(),
        ensures
            s == self.screen_at(center, p),
    {
        let x: i128 = mul_div(p.x as i128 - self.target.x as i128, self.zoom as i128, MICRO as i128);
        let y: i128 = mul_div(p.y as i128 - self.target.y as i128, self.zoom as i128, MICRO as i128);
        Point { x: saturate(x + center.x as i128), y: saturate(y + center.y as i128) }
    }
}

/// A screen distance taken to world scale is no longer than it is on the
/// screen, since the zoom factor is at least one.
pub proof fn lemma_world_scale_shrinks(screen: int, center: int, zoom: int)
    requires
        ZOOM_MIN <= zoom <= ZOOM_MAX,
    ensures
        magnitude(trunc_div((screen - center) * MICRO, zoom)) <= magnitude(screen - center),
{
    let arm = screen - center;
    let q = trunc_div(arm * MICRO, zoom);
    lemma_trunc_div_bounds(arm * MICRO, zoom);
    if arm >= 0 {
        assert(arm * MICRO >= 0) by (nonlinear_arith)
            requires
                arm >= 0,
        ;
        assert(q <= arm) by (nonlinear_arith)
            requires
                q * zoom <= arm * MICRO,
                MICRO <= zoom,
                q >= 0,
                arm >= 0,
        ;
    } else {
        assert(arm * MICRO <= 0) by (nonlinear_arith)
            requires
                arm <= 0,
        ;
        assert(q >= arm) by (nonlinear_arith)
            requires
                arm * MICRO <= q * zoom,
                MICRO <= zoom,
                q <= 0,
                arm <= 0,
        ;
    }
}

/// Along one axis, mapping a world coordinate to the screen and back lands
/// within one millionth of where it started, for every zoom factor in range.
pub proof fn lemma_round_trip_coord(zoom: int, target: int, center: int, world: int)
    requires
        ZOOM_MIN <= zoom <= ZOOM_MAX,
    ensures
        world - 1 <= world_coord(zoom, target, center, screen_coord(zoom, target, center, world))
            <= world + 1,
{
    let d = world - target;
    let a = trunc_div(d * zoom, MICRO as int);
    let r = trunc_div(a * MICRO, zoom);
    lemma_trunc_div_bounds(d * zoom, MICRO as int);
    lemma_trunc_div_bounds(a * MICRO, zoom);
    if d >= 0 {
        assert(d * zoom >= 0) by (nonlinear_arith)
            requires
                d >= 0,
                zoom > 0,
        ;
        assert(a * MICRO >= 0);
        assert(d - 1 <= r <= d) by (nonlinear_arith)
            requires
                a * MICRO <= d * zoom < a * MICRO + MICRO,
                r * zoom <= a * MICRO < r * zoom + zoom,
                MICRO <= zoom,
        ;
    } else {
        assert(d * zoom <= 0) by (nonlinear_arith)
            requires
                d <= 0,
                zoom > 0,
        ;
        assert(a * MICRO <= 0);
        assert(d <= r <= d + 1) by (nonlinear_arith)
            requires
                a * MICRO - MICRO < d * zoom <= a * MICRO,
                r * zoom - zoom < a * MICRO <= r * zoom,
                MICRO <= zoom,
        ;
    }
}

/// Along one axis, mapping a screen coordinate to the world and back lands
/// within ten millionths of a pixel of where it started: one world step
/// spans up to [`ZOOM_MAX`] steps on the screen.
pub proof fn lemma_round_trip_screen_coord(zoom: int, target: int, center: int, screen: int)
    requires
        ZOOM_MIN <= zoom <= ZOOM_MAX,
    ensures
        screen - 10 <= screen_coord(zoom, target, center, world_coord(zoom, target, center, screen))
            <= screen + 10,
{
    let e = screen - center;
    let b = trunc_div(e * MICRO, zoom);
    let r = trunc_div(b * zoom, MICRO as int);
    lemma_trunc_div_bounds(e * MICRO, zoom);
    lemma_trunc_div_bounds(b * zoom, MICRO as int);
    if e >= 0 {
        assert(e * MICRO >= 0) by (nonlinear_arith)
            requires
                e >= 0,
        ;
        assert(b * zoom >= 0) by (nonlinear_arith)
            requires
                b >= 0,
                zoom > 0,
        ;
        assert(e - 10 <= r <= e) by (nonlinear_arith)
            requires
                b * zoom <= e * MICRO < b * zoom + zoom,
                r * MICRO <= b * zoom < r * MICRO + MICRO,
                zoom <= 10 * MICRO,
        ;
    } else {
        assert(e * MICRO <= 0) by (nonlinear_arith)
            requires
                e <= 0,
        ;
        assert(b * zoom <= 0) by (nonlinear_arith)
            requires
                b <= 0,
                zoom > 0,
        ;
        assert(e <= r <= e + 10) by (nonlinear_arith)
            requires
                b * zoom - zoom < e * MICRO <= b * zoom,
                r * MICRO - MICRO < b * zoom <= r * MICRO,
                zoom <= 10 * MICRO,
        ;
    }
}

/// Along one axis, a world coordinate within [`COORD_LIMIT`] of a camera
/// within that limit maps to a screen coordinate that an `i64` holds.
pub proof fn lemma_screen_coord_fits(zoom: int, target: int, center: int, world: int)
    requires
        ZOOM_MIN <= zoom <= ZOOM_MAX,
        -COORD_LIMIT <= target <= COORD_LIMIT,
        -COORD_LIMIT <= center <= COORD_LIMIT,
        -COORD_LIMIT <= world <= COORD_LIMIT,
    ensures
        i64::MIN <= screen_coord(zoom, target, center, world) <= i64::MAX,
{
    let d = world - target;
    let a = trunc_div(d * zoom, MICRO as int);
    lemma_trunc_div_bounds(d * zoom, MICRO as int);
    if d >= 0 {
        assert(0 <= d * zoom <= (2 * COORD_LIMIT) * ZOOM_MAX) by (nonlinear_arith)
            requires
                0 <= d <= 2 * COORD_LIMIT,
                0 < zoom <= ZOOM_MAX,
        ;
    } else {
        assert(-(2 * COORD_LIMIT) * ZOOM_MAX <= d * zoom <= 0) by (nonlinear_arith)
            requires
                -2 * COORD_LIMIT <= d <= 0,
                0 < zoom <= ZOOM_MAX,
        ;
    }
}

/// Round trip: for a camera and a world point within [`COORD_LIMIT`],
/// mapping the point to the screen and back gives a point within one
/// millionth of it on each axis.
pub proof fn lemma_round_trip(cam: CameraState, center: Point, p: Point)
    requires
        cam.wf(),
        cam.target.within(COORD_LIMIT as int),
        center.within(COORD_LIMIT as int),
        p.within(COORD_LIMIT as int),
    ensures
        p.x - 1 <= cam.world_at(center, cam.screen_at(center, p)).x <= p.x + 1,
        p.y - 1 <= cam.world_at(center, cam.screen_at(center, p)).y <= p.y + 1,
{
    lemma_screen_coord_fits(cam.zoom as int, cam.target.x as int, center.x as int, p.x as int);
    lemma_screen_coord_fits(cam.zoom as int, cam.target.y as int, center.y as int, p.y as int);
    lemma_round_trip_coord(cam.zoom as int, cam.target.x as int, center.x as int, p.x as int);
    lemma_round_trip_coord(cam.zoom as int, cam.target.y as int, center.y as int, p.y as int);
}

/// Round trip from the screen: for a camera and a screen point within
/// [`COORD_LIMIT`], mapping the point to the world and back gives a point
/// within ten millionths of a pixel of it on each axis.
pub proof fn lemma_round_trip_screen(cam: CameraState, center: Point, p: Point)
    requires
        cam.wf(),
        cam.target.within(COORD_LIMIT as int),
        center.within(COORD_LIMIT as int),
        p.within(COORD_LIMIT as int),
    ensures
        p.x - 10 <= cam.screen_at(center, cam.world_at(center, p)).x <= p.x + 10,
        p.y - 10 <= cam.screen_at(center, cam.world_at(center, p)).y <= p.y + 10,
{
    lemma_world_scale_shrinks(p.x as int, center.x as int, cam.zoom as int);
    lemma_world_scale_shrinks(p.y as int, center.y as int, cam.zoom as int);
    lemma_round_trip_screen_coord(cam.zoom as int, cam.target.x as int, center.x as int, p.x as int);
    lemma_round_trip_screen_coord(cam.zoom as int, cam.target.y as int, center.y as int, p.y as int);
}

} // verus!
