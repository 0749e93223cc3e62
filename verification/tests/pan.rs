use magnifier::camera::{CameraState, Point, Screen};
use magnifier::input::{FrameInput, PanKeys};
use magnifier::interaction::InteractionState;
use magnifier::pan::{
    carries_momentum, coast, drag, offset_of, pan_with_keys, shift_along, update_pan, Direction,
    PAN_DECAY_RATE, VELOCITY_THRESHOLD,
};

fn px(x: i64, y: i64) -> Point {
    Point::new(x * 1_000_000, y * 1_000_000)
}

fn keys(left: bool, down: bool, up: bool, right: bool) -> PanKeys {
    PanKeys { left, down, up, right }
}

const FRAME: u32 = 16_667;
const SCREEN: Screen = Screen { width: 800, height: 600 };

#[test]
fn pan_constants() {
    assert_eq!(VELOCITY_THRESHOLD, 15_000_000);
    assert_eq!(PAN_DECAY_RATE, 6);
}

#[test]
fn key_offsets() {
    assert_eq!(offset_of(Direction::Left), px(15, 0));
    assert_eq!(offset_of(Direction::Down), px(0, -15));
    assert_eq!(offset_of(Direction::Up), px(0, 15));
    assert_eq!(offset_of(Direction::Right), px(-15, 0));
}

#[test]
fn shift_along_is_a_difference_of_world_coordinates() {
    let cam: CameraState = CameraState::with_zoom(px(77, 88), 2_000_000);
    let center: Point = px(400, 300);
    let mouse: Point = px(500, 300);
    let shift: i128 = shift_along(&cam, center.x, mouse.x, 30_000_000);
    let from: Point = cam.screen_to_world(center, px(470, 300));
    let to: Point = cam.screen_to_world(center, mouse);
    assert_eq!(shift, (from.x - to.x) as i128);
    assert_eq!(shift, -15_000_000);
}

#[test]
fn shift_along_without_movement_is_zero() {
    let cam: CameraState = CameraState::with_zoom(px(0, 0), 7_000_000);
    assert_eq!(shift_along(&cam, 400_000_000, 123_456_789, 0), 0);
}

#[test]
fn shift_along_handles_the_whole_range() {
    let cam: CameraState = CameraState::new(px(0, 0));
    assert_eq!(shift_along(&cam, 0, i64::MAX, i64::MIN), 1i128 << 63);
    assert_eq!(shift_along(&cam, i64::MAX, i64::MIN, i64::MAX), -(i64::MAX as i128));
}

#[test]
fn no_keys_no_movement() {
    let mut cam: CameraState = CameraState::with_zoom(px(3, 4), 2_000_000);
    pan_with_keys(&mut cam, keys(false, false, false, false), px(400, 300), px(10, 10));
    assert_eq!(cam, CameraState::with_zoom(px(3, 4), 2_000_000));
}

#[test]
fn each_key_moves_fifteen_pixels_at_zoom_one() {
    let center: Point = px(400, 300);
    let mouse: Point = px(321, 123);
    let mut cam: CameraState = CameraState::new(px(0, 0));
    pan_with_keys(&mut cam, keys(true, false, false, false), center, mouse);
    assert_eq!(cam.target, px(-15, 0));
    let mut cam: CameraState = CameraState::new(px(0, 0));
    pan_with_keys(&mut cam, keys(false, true, false, false), center, mouse);
    assert_eq!(cam.target, px(0, 15));
    let mut cam: CameraState = CameraState::new(px(0, 0));
    pan_with_keys(&mut cam, keys(false, false, true, false), center, mouse);
    assert_eq!(cam.target, px(0, -15));
    let mut cam: CameraState = CameraState::new(px(0, 0));
    pan_with_keys(&mut cam, keys(false, false, false, true), center, mouse);
    assert_eq!(cam.target, px(15, 0));
}

#[test]
fn opposite_keys_cancel() {
    let mut cam: CameraState = CameraState::with_zoom(px(9, 9), 4_000_000);
    pan_with_keys(&mut cam, keys(true, true, true, true), px(400, 300), px(200, 100));
    assert_eq!(cam.target, px(9, 9));
}

#[test]
fn keys_add_up() {
    let mut cam: CameraState = CameraState::new(px(100, 100));
    pan_with_keys(&mut cam, keys(false, true, false, true), px(400, 300), px(0, 0));
    assert_eq!(cam.target, px(115, 115));
}

#[test]
fn key_pan_covers_less_world_at_higher_zoom() {
    let mut cam: CameraState = CameraState::with_zoom(px(0, 0), 4_000_000);
    pan_with_keys(
        &mut cam,
        keys(true, false, false, false),
        px(400, 300),
        Point::new(123_456_789, 77_000_000),
    );
    assert_eq!(cam.target, Point::new(-3_750_000, 0));
    assert_eq!(cam.zoom, 4_000_000);
    let mut cam: CameraState = CameraState::with_zoom(px(0, 0), 3_000_000);
    pan_with_keys(&mut cam, keys(false, false, false, true), px(400, 300), px(500, 300));
    assert_eq!(cam.target, Point::new(5_000_000, 0));
}

#[test]
fn key_pan_saturates_the_target() {
    let mut cam: CameraState = CameraState::new(Point::new(i64::MAX - 1, i64::MIN + 1));
    pan_with_keys(&mut cam, keys(false, false, true, true), px(0, 0), px(0, 0));
    assert_eq!(cam.target, Point::new(i64::MAX, i64::MIN));
}

#[test]
fn holding_pan_right_for_a_second() {
    // Sixty frames at zoom 1: every frame contributes the key's offset taken
    // to world space, 15 units, whatever the frame time.
    let mut cam: CameraState = CameraState::new(px(0, 0));
    let mut state: InteractionState = InteractionState::new(px(400, 300));
    let mut input: FrameInput = FrameInput::idle(px(400, 300), SCREEN, FRAME, 60);
    input.pan = keys(false, false, false, true);
    let mut frames: i64 = 0;
    while frames < 60 {
        let before: i64 = cam.target.x;
        update_pan(&mut cam, &mut state, &input);
        assert_eq!(cam.target.x - before, 15_000_000);
        assert_eq!(cam.target.y, 0);
        frames += 1;
    }
    assert_eq!(cam.target, px(900, 0));
    assert_eq!(state.pan_velocity, Point::new(0, 0));
}

#[test]
fn drag_moves_the_view_with_the_mouse() {
    let mut cam: CameraState = CameraState::with_zoom(px(50, 50), 2_000_000);
    let mut state: InteractionState = InteractionState::new(px(0, 0));
    drag(&mut cam, &mut state, px(400, 300), px(500, 300), px(30, -12), 60);
    assert_eq!(cam.target, px(35, 56));
    assert_eq!(state.pan_velocity, px(-900, 360));
}

#[test]
fn drag_keeps_the_grabbed_world_point_under_the_mouse() {
    let center: Point = px(400, 300);
    let mouse_before: Point = px(470, 312);
    let mouse_after: Point = px(500, 300);
    let mut cam: CameraState = CameraState::with_zoom(px(50, 50), 2_000_000);
    let mut state: InteractionState = InteractionState::new(px(0, 0));
    let grabbed: Point = cam.screen_to_world(center, mouse_before);
    drag(&mut cam, &mut state, center, mouse_after, px(30, -12), 60);
    assert_eq!(cam.screen_to_world(center, mouse_after), grabbed);
}

#[test]
fn drag_without_movement_stops_the_view() {
    let mut cam: CameraState = CameraState::with_zoom(px(1, 1), 5_000_000);
    let mut state: InteractionState = InteractionState::new(px(0, 0));
    state.pan_velocity = px(500, 500);
    drag(&mut cam, &mut state, px(400, 300), px(17, 23), px(0, 0), 144);
    assert_eq!(cam.target, px(1, 1));
    assert_eq!(state.pan_velocity, px(0, 0));
}

#[test]
fn drag_leaves_the_rest_of_the_state() {
    let mut cam: CameraState = CameraState::new(px(0, 0));
    let mut state: InteractionState = InteractionState::new(px(8, 8));
    state.zoom_velocity = 1;
    state.spotlight_radius = 4_000_000;
    state.spotlight_radius_velocity = 3;
    drag(&mut cam, &mut state, px(0, 0), px(0, 0), px(1, 1), 60);
    assert_eq!(state.zoom_velocity, 1);
    assert_eq!(state.zoom_pivot, px(8, 8));
    assert_eq!(state.spotlight_radius, 4_000_000);
    assert_eq!(state.spotlight_radius_velocity, 3);
    assert_eq!(cam.zoom, 1_000_000);
}

#[test]
fn drag_velocity_saturates() {
    let mut cam: CameraState = CameraState::new(px(0, 0));
    let mut state: InteractionState = InteractionState::new(px(0, 0));
    drag(&mut cam, &mut state, px(0, 0), px(0, 0), Point::new(i64::MAX, i64::MIN), u32::MAX);
    assert_eq!(state.pan_velocity, Point::new(i64::MIN, i64::MAX));
    assert_eq!(cam.target, Point::new(-i64::MAX, i64::MAX));
}

#[test]
fn momentum_needs_more_than_the_threshold() {
    assert!(!carries_momentum(Point::new(0, 0)));
    assert!(!carries_momentum(px(15, 0)));
    assert!(!carries_momentum(px(0, -15)));
    assert!(!carries_momentum(px(9, 12)));
    assert!(!carries_momentum(px(-12, -9)));
    assert!(carries_momentum(Point::new(15_000_001, 0)));
    assert!(carries_momentum(Point::new(0, -15_000_001)));
    assert!(carries_momentum(Point::new(9_000_000, 12_000_001)));
    assert!(carries_momentum(px(11, 11)));
    assert!(!carries_momentum(px(10, 11)));
}

#[test]
fn momentum_test_handles_the_whole_range() {
    assert!(carries_momentum(Point::new(i64::MIN, i64::MIN)));
    assert!(carries_momentum(Point::new(i64::MAX, i64::MIN)));
    assert!(carries_momentum(Point::new(i64::MIN, 0)));
}

#[test]
fn coast_moves_by_velocity_and_slows_down() {
    let mut cam: CameraState = CameraState::with_zoom(px(0, 0), 2_000_000);
    let mut state: InteractionState = InteractionState::new(px(0, 0));
    state.pan_velocity = px(-900, 360);
    coast(&mut cam, &mut state, FRAME);
    assert_eq!(cam.target, Point::new(-15_000_300, 6_000_120));
    assert_eq!(state.pan_velocity, Point::new(-809_998_200, 323_999_280));
    assert_eq!(cam.zoom, 2_000_000);
}

#[test]
fn coast_saturates_the_target() {
    let mut cam: CameraState = CameraState::new(Point::new(i64::MAX, i64::MIN));
    let mut state: InteractionState = InteractionState::new(px(0, 0));
    state.pan_velocity = Point::new(i64::MAX, i64::MIN);
    coast(&mut cam, &mut state, 1_000_000);
    assert_eq!(cam.target, Point::new(i64::MAX, i64::MIN));
}

#[test]
fn update_pan_drag_overrides_momentum() {
    let mut cam: CameraState = CameraState::with_zoom(px(50, 50), 2_000_000);
    let mut state: InteractionState = InteractionState::new(px(0, 0));
    state.pan_velocity = px(5_000, 5_000);
    let mut input: FrameInput = FrameInput::idle(px(500, 300), SCREEN, FRAME, 60);
    input.primary_down = true;
    input.mouse_delta = px(30, -12);
    update_pan(&mut cam, &mut state, &input);
    assert_eq!(cam.target, px(35, 56));
    assert_eq!(state.pan_velocity, px(-900, 360));
}

#[test]
fn update_pan_applies_momentum_after_release() {
    let mut cam: CameraState = CameraState::with_zoom(px(0, 0), 2_000_000);
    let mut state: InteractionState = InteractionState::new(px(0, 0));
    state.pan_velocity = px(-900, 360);
    let input: FrameInput = FrameInput::idle(px(500, 300), SCREEN, FRAME, 60);
    update_pan(&mut cam, &mut state, &input);
    assert_eq!(cam.target, Point::new(-15_000_300, 6_000_120));
    assert_eq!(state.pan_velocity, Point::new(-809_998_200, 323_999_280));
}

#[test]
fn update_pan_keys_add_to_drag_and_to_momentum() {
    let mut cam: CameraState = CameraState::with_zoom(px(50, 50), 2_000_000);
    let mut state: InteractionState = InteractionState::new(px(0, 0));
    let mut input: FrameInput = FrameInput::idle(px(500, 300), SCREEN, FRAME, 60);
    input.primary_down = true;
    input.mouse_delta = px(30, -12);
    input.pan = keys(true, false, false, false);
    update_pan(&mut cam, &mut state, &input);
    // Drag: (-15, +6); key: (-7.5, 0). The key does not enter the velocity.
    assert_eq!(cam.target, Point::new(27_500_000, 56_000_000));
    assert_eq!(state.pan_velocity, px(-900, 360));

    let mut cam: CameraState = CameraState::with_zoom(px(0, 0), 2_000_000);
    let mut state: InteractionState = InteractionState::new(px(0, 0));
    state.pan_velocity = px(-900, 360);
    let mut input: FrameInput = FrameInput::idle(px(500, 300), SCREEN, FRAME, 60);
    input.pan = keys(false, false, true, false);
    update_pan(&mut cam, &mut state, &input);
    assert_eq!(cam.target, Point::new(-15_000_300, 6_000_120 - 7_500_000));
}

#[test]
fn momentum_stops_at_the_threshold() {
    let mut cam: CameraState = CameraState::with_zoom(px(0, 0), 2_000_000);
    let mut state: InteractionState = InteractionState::new(px(0, 0));
    state.pan_velocity = px(-900, 360);
    let input: FrameInput = FrameInput::idle(px(500, 300), SCREEN, FRAME, 60);
    let mut frames: u32 = 0;
    while carries_momentum(state.pan_velocity) {
        let before: Point = state.pan_velocity;
        update_pan(&mut cam, &mut state, &input);
        assert!(state.pan_velocity.x.abs() < before.x.abs());
        assert!(state.pan_velocity.y.abs() < before.y.abs());
        frames += 1;
        assert!(frames <= 300);
    }
    assert_eq!(frames, 40);
    assert_eq!(state.pan_velocity, Point::new(-13_301_617, 5_320_649));
    assert_eq!(cam.target.x, -147_783_045);

    // From here on nothing moves.
    let rest_cam: CameraState = cam;
    let rest_state: InteractionState = state;
    let mut more: u32 = 0;
    while more < 100 {
        update_pan(&mut cam, &mut state, &input);
        assert_eq!(cam, rest_cam);
        assert_eq!(state, rest_state);
        more += 1;
    }
}

#[test]
fn velocity_at_the_threshold_does_not_move_the_view() {
    let mut cam: CameraState = CameraState::with_zoom(px(1, 2), 3_000_000);
    let mut state: InteractionState = InteractionState::new(px(0, 0));
    state.pan_velocity = px(9, -12);
    let input: FrameInput = FrameInput::idle(px(0, 0), SCREEN, 1_000_000, 1);
    update_pan(&mut cam, &mut state, &input);
    assert_eq!(cam, CameraState::with_zoom(px(1, 2), 3_000_000));
    assert_eq!(state.pan_velocity, px(9, -12));
}
