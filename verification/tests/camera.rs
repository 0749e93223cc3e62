use magnifier::camera::{CameraState, Point, Screen, COORD_LIMIT, ZOOM_MAX, ZOOM_MIN};

fn px(x: i64, y: i64) -> Point {
    Point::new(x * 1_000_000, y * 1_000_000)
}

#[test]
fn zoom_range_is_one_to_ten() {
    assert_eq!(ZOOM_MIN, 1_000_000);
    assert_eq!(ZOOM_MAX, 10_000_000);
}

#[test]
fn point_new_sets_both_coordinates() {
    let p: Point = Point::new(3, -4);
    assert_eq!(p.x, 3);
    assert_eq!(p.y, -4);
    assert_eq!(p, Point { x: 3, y: -4 });
}

#[test]
fn point_from_pixels_scales_by_a_million() {
    assert_eq!(Point::from_pixels(1920, -1080), Point::new(1_920_000_000, -1_080_000_000));
    assert_eq!(Point::from_pixels(0, 0), Point::new(0, 0));
    assert_eq!(
        Point::from_pixels(i32::MAX, i32::MIN),
        Point::new(i32::MAX as i64 * 1_000_000, i32::MIN as i64 * 1_000_000)
    );
}

#[test]
fn screen_center_halves_whole_pixels() {
    assert_eq!(Screen { width: 800, height: 600 }.center(), px(400, 300));
    // Odd sizes round down to a whole pixel.
    assert_eq!(Screen { width: 801, height: 601 }.center(), px(400, 300));
    assert_eq!(Screen { width: 0, height: 1 }.center(), px(0, 0));
    assert_eq!(
        Screen { width: u32::MAX, height: u32::MAX }.center(),
        px(2_147_483_647, 2_147_483_647)
    );
}

#[test]
fn new_camera_has_zoom_one() {
    let cam: CameraState = CameraState::new(px(5, 6));
    assert_eq!(cam.target, px(5, 6));
    assert_eq!(cam.zoom, 1_000_000);
    assert!(cam.is_valid());
}

#[test]
fn with_zoom_clamps_into_range() {
    assert_eq!(CameraState::with_zoom(px(0, 0), 2_500_000).zoom, 2_500_000);
    assert_eq!(CameraState::with_zoom(px(0, 0), 999_999).zoom, 1_000_000);
    assert_eq!(CameraState::with_zoom(px(0, 0), 10_000_001).zoom, 10_000_000);
    assert_eq!(CameraState::with_zoom(px(0, 0), i64::MIN).zoom, 1_000_000);
    assert_eq!(CameraState::with_zoom(px(0, 0), i64::MAX).zoom, 10_000_000);
    assert_eq!(CameraState::with_zoom(px(7, 8), 0).target, px(7, 8));
}

#[test]
fn is_valid_tells_the_zoom_range() {
    assert!(CameraState { target: px(0, 0), zoom: 1_000_000 }.is_valid());
    assert!(CameraState { target: px(0, 0), zoom: 10_000_000 }.is_valid());
    assert!(!CameraState { target: px(0, 0), zoom: 999_999 }.is_valid());
    assert!(!CameraState { target: px(0, 0), zoom: 10_000_001 }.is_valid());
    assert!(!CameraState { target: px(0, 0), zoom: 0 }.is_valid());
}

#[test]
fn screen_center_shows_the_target() {
    let cam: CameraState = CameraState::with_zoom(px(10, 20), 2_500_000);
    assert_eq!(cam.screen_to_world(px(400, 300), px(400, 300)), px(10, 20));
    assert_eq!(cam.world_to_screen(px(400, 300), px(10, 20)), px(400, 300));
}

#[test]
fn screen_to_world_divides_by_zoom() {
    // world = (screen - center) / zoom + target
    let cam: CameraState = CameraState::with_zoom(px(10, 20), 2_500_000);
    assert_eq!(cam.screen_to_world(px(400, 300), px(500, 100)), px(50, -60));
}

#[test]
fn world_to_screen_multiplies_by_zoom() {
    // screen = (world - target) * zoom + center
    let cam: CameraState = CameraState::with_zoom(px(10, 20), 2_500_000);
    assert_eq!(cam.world_to_screen(px(400, 300), px(50, -60)), px(500, 100));
}

#[test]
fn screen_to_world_matches_the_stated_formula() {
    // world = screen / zoom + (target - center / zoom)
    let zoom: f64 = 3.7;
    let cam: CameraState = CameraState::with_zoom(Point::new(-12_500_000, 40_250_000), 3_700_000);
    let center: Point = px(960, 540);
    let p: Point = Point::new(1_234_567_890, 87_654_321);
    let w: Point = cam.screen_to_world(center, p);
    let wx: f64 = 1234.56789 / zoom + (-12.5 - 960.0 / zoom);
    let wy: f64 = 87.654321 / zoom + (40.25 - 540.0 / zoom);
    assert!((w.x as f64 / 1e6 - wx).abs() < 2e-6);
    assert!((w.y as f64 / 1e6 - wy).abs() < 2e-6);
}

#[test]
fn screen_to_world_rounds_toward_the_target() {
    let cam: CameraState = CameraState::with_zoom(px(0, 0), 3_000_000);
    let c: Point = px(400, 300);
    assert_eq!(cam.screen_to_world(c, px(401, 299)), Point::new(333_333, -333_333));
}

#[test]
fn transform_at_zoom_one_is_a_translation() {
    let cam: CameraState = CameraState::new(Point::new(7, -9));
    let c: Point = Point::new(100, 200);
    assert_eq!(cam.screen_to_world(c, Point::new(123, 456)), Point::new(30, 247));
    assert_eq!(cam.world_to_screen(c, Point::new(30, 247)), Point::new(123, 456));
}

#[test]
fn transform_with_origin_anchor_needs_no_center() {
    let cam: CameraState = CameraState::with_zoom(px(100, 50), 2_000_000);
    let origin: Point = px(0, 0);
    assert_eq!(cam.screen_to_world(origin, px(30, 40)), px(115, 70));
    assert_eq!(cam.world_to_screen(origin, px(115, 70)), px(30, 40));
}

#[test]
fn round_trip_returns_within_one_step() {
    let zooms: Vec<i64> = vec![1_000_000, 1_000_001, 1_500_000, 3_333_333, 7_777_777, 10_000_000];
    let points: Vec<Point> = vec![
        Point::new(0, 0),
        Point::new(1, -1),
        Point::new(123_456_789, -987_654_321),
        Point::new(-5, 999_999_999_999),
        Point::new(COORD_LIMIT, -COORD_LIMIT),
    ];
    let center: Point = px(960, 540);
    for zoom in zooms.iter() {
        let cam: CameraState = CameraState::with_zoom(Point::new(-31_415_926, 27_182_818), *zoom);
        for p in points.iter() {
            let back: Point = cam.screen_to_world(center, cam.world_to_screen(center, *p));
            assert!((back.x - p.x).abs() <= 1, "zoom {} x {} -> {}", zoom, p.x, back.x);
            assert!((back.y - p.y).abs() <= 1, "zoom {} y {} -> {}", zoom, p.y, back.y);
        }
    }
}

#[test]
fn round_trip_is_within_relative_tolerance() {
    let cam: CameraState = CameraState::with_zoom(px(250, -125), 6_250_000);
    let center: Point = px(640, 360);
    let p: Point = Point::new(812_345_678, -44_000_001);
    let back: Point = cam.screen_to_world(center, cam.world_to_screen(center, p));
    let rel_x: f64 = ((back.x - p.x) as f64 / p.x as f64).abs();
    let rel_y: f64 = ((back.y - p.y) as f64 / p.y as f64).abs();
    assert!(rel_x < 1e-4);
    assert!(rel_y < 1e-4);
}

#[test]
fn round_trip_is_exact_at_zoom_one() {
    let cam: CameraState = CameraState::new(Point::new(17, 19));
    let center: Point = px(1, 2);
    let p: Point = Point::new(-123_456_789_012, 3);
    assert_eq!(cam.screen_to_world(center, cam.world_to_screen(center, p)), p);
}

#[test]
fn transforms_saturate_at_the_ends_of_the_range() {
    let cam: CameraState = CameraState::with_zoom(Point::new(i64::MAX, i64::MIN), 1_000_000);
    let w: Point = cam.screen_to_world(Point::new(0, 0), Point::new(1, -1));
    assert_eq!(w, Point::new(i64::MAX, i64::MIN));
    let far: CameraState = CameraState::with_zoom(Point::new(0, 0), 10_000_000);
    let s: Point = far.world_to_screen(Point::new(0, 0), Point::new(i64::MAX, i64::MIN));
    assert_eq!(s, Point::new(i64::MAX, i64::MIN));
}

#[test]
fn framing_shows_the_origin_at_the_top_left() {
    let screen: Screen = Screen { width: 800, height: 600 };
    let cam: CameraState = CameraState::framing(px(1920, 0), screen);
    assert_eq!(cam.target, px(2320, 300));
    assert_eq!(cam.zoom, 1_000_000);
    assert_eq!(cam.screen_to_world(screen.center(), px(0, 0)), px(1920, 0));
    assert_eq!(cam.screen_to_world(screen.center(), px(800, 600)), px(2720, 600));
}

#[test]
fn framing_handles_negative_and_odd_placements() {
    let screen: Screen = Screen { width: 1367, height: 769 };
    let cam: CameraState = CameraState::framing(Point::from_pixels(-1367, -5), screen);
    assert_eq!(cam.target, px(-1367 + 683, -5 + 384));
    assert_eq!(cam.screen_to_world(screen.center(), px(0, 0)), px(-1367, -5));
}

#[test]
fn framing_saturates() {
    let screen: Screen = Screen { width: 2, height: 2 };
    let cam: CameraState = CameraState::framing(Point::new(i64::MAX, i64::MIN), screen);
    assert_eq!(cam.target, Point::new(i64::MAX, i64::MIN + 1_000_000));
    assert!(cam.is_valid());
}

#[test]
fn round_trip_from_the_screen_returns_within_ten_steps() {
    let zooms: Vec<i64> = vec![1_000_000, 1_000_001, 2_999_999, 9_999_999, 10_000_000];
    let points: Vec<Point> = vec![
        Point::new(0, 0),
        Point::new(7, -7),
        Point::new(1_919_999_999, 1_079_999_999),
        Point::new(-COORD_LIMIT, COORD_LIMIT),
    ];
    let center: Point = px(960, 540);
    for zoom in zooms.iter() {
        let cam: CameraState = CameraState::with_zoom(Point::new(5_000_001, -5_000_003), *zoom);
        for p in points.iter() {
            let back: Point = cam.world_to_screen(center, cam.screen_to_world(center, *p));
            assert!((back.x - p.x).abs() <= 10, "zoom {} x {} -> {}", zoom, p.x, back.x);
            assert!((back.y - p.y).abs() <= 10, "zoom {} y {} -> {}", zoom, p.y, back.y);
        }
    }
}
