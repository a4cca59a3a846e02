use project_smokey::input::handle_event;
use project_smokey::input::PointerEvent;
use project_smokey::input::ScrollDirection;
use project_smokey::transform::image_coordinates_to_meters;
use project_smokey::transform::image_origin;
use project_smokey::transform::pixels_to_image_coordinates;
use project_smokey::transform::pixels_to_meters;
use project_smokey::transform::ImagePoint;
use project_smokey::transform::EARTH_CIRCUMFERENCE;
use project_smokey::transform::MAP_SHIFT_X;
use project_smokey::transform::MAP_SHIFT_Y;
use project_smokey::transform::ORIGIN_SHIFT;
use project_smokey::transform::PIXEL_SCALE;
use project_smokey::transform::WORLD_SIZE_PIXELS;
use project_smokey::view::MapState;

fn panned_and_zoomed(pan: (i32, i32), zoom: i64) -> MapState {
    let mut state = MapState::new();
    state.begin_pan((0, 0));
    state.update_pan(pan);
    state.end_pan();
    state.adjust_zoom(zoom - 10);
    state
}

fn point(x: i64, y: i64, scale: i64) -> ImagePoint {
    ImagePoint::new(x, y, scale).unwrap()
}

#[test]
fn calibration_constants_match_the_sphere() {
    let circumference = 2.0 * std::f64::consts::PI * 6_378_137.0 * 1000.0;
    assert_eq!(EARTH_CIRCUMFERENCE, circumference.round() as i64);
    assert_eq!(ORIGIN_SHIFT, (circumference / 2.0).round() as i64);
    assert_eq!(MAP_SHIFT_X, (108.0 * circumference / 700.0).round() as i64);
    assert_eq!(MAP_SHIFT_Y, (241.0 * circumference / 700.0).round() as i64);
    assert_eq!(WORLD_SIZE_PIXELS, 8454);
    assert_eq!(PIXEL_SCALE, 1000);
}

#[test]
fn image_point_keeps_its_numbers() {
    let a = point(18_181, -9_090, 1_000);
    assert_eq!((a.x(), a.y(), a.scale()), (18_181, -9_090, 1_000));
    assert_eq!(point(1, 1, 1), point(1, 1, 1));
    assert_ne!(point(1, 1, 1), point(2, 2, 2));
}

#[test]
fn image_point_needs_a_positive_denominator() {
    assert_eq!(ImagePoint::new(5, 7, 0), None);
    assert_eq!(ImagePoint::new(5, 7, -1_000), None);
    assert_eq!(ImagePoint::new(0, 0, i64::MIN), None);
    assert!(ImagePoint::new(0, 0, 1).is_some());
    assert!(ImagePoint::new(0, 0, i64::MAX).is_some());
}

#[test]
fn image_point_must_project_into_range() {
    assert!(ImagePoint::new(1_945_710_663_769_635, 0, 1_000).is_some());
    assert_eq!(ImagePoint::new(1_945_710_663_769_636, 0, 1_000), None);
    assert!(ImagePoint::new(-1_945_710_657_924_298, 0, 1_000).is_some());
    assert_eq!(ImagePoint::new(-1_945_710_657_924_299, 0, 1_000), None);
    assert_eq!(ImagePoint::new(0, 1_945_710_663_769_636, 1_000), None);
    assert_eq!(ImagePoint::new(i64::MAX, 0, 50_000), None);
    assert!(ImagePoint::new(i64::MAX, i64::MAX, i64::MAX).is_some());
    assert!(ImagePoint::new(i64::MIN, i64::MIN, 1_000_000_000).is_some());
}

#[test]
fn image_coordinates_at_unit_zoom_subtract_the_pan() {
    let state = panned_and_zoomed((5_000, 0), 10);
    assert_eq!(
        pixels_to_image_coordinates(350_000, 200_000, &state),
        point(3_450_000, 2_000_000, 10_000)
    );
    assert_eq!(pixels_to_image_coordinates(5_000, 0, &state), point(0, 0, 10_000));
    assert_eq!(pixels_to_image_coordinates(0, -1, &state), point(-50_000, -10, 10_000));
}

#[test]
fn image_coordinates_divide_by_the_zoom_factor() {
    let state = panned_and_zoomed((5_000, 0), 11);
    assert_eq!(
        pixels_to_image_coordinates(25_000, 10_000, &state),
        point(200_000, 100_000, 11_000)
    );
    let wide = panned_and_zoomed((-40_000, 70_000), 25);
    assert_eq!(
        pixels_to_image_coordinates(123_456, 654_321, &wide),
        point(1_634_560, 5_843_210, 25_000)
    );
    let tiny = panned_and_zoomed((0, 0), 3);
    assert_eq!(pixels_to_image_coordinates(1_000, 1_000, &tiny), point(10_000, 10_000, 3_000));
    assert_eq!(pixels_to_image_coordinates(-1_000, 1, &tiny), point(-10_000, 10, 3_000));
}

#[test]
fn image_coordinates_map_back_to_the_pointer_exactly() {
    let pans = [(0, 0), (5_000, -3_000), (-123_457, 999_999)];
    let pointers = [(0, 0), (1, -1), (1_000, 2_000), (123_456, 654_321), (i32::MAX, i32::MIN)];
    for pan in pans {
        let mut zoom = 1;
        while zoom <= 50 {
            let state = panned_and_zoomed(pan, zoom);
            for (px, py) in pointers {
                let a = pixels_to_image_coordinates(px, py, &state);
                assert_eq!(a.scale(), zoom * 1000);
                let back_x = a.x() as i128 * zoom as i128 * 1000 + pan.0 as i128 * 10 * a.scale() as i128;
                let back_y = a.y() as i128 * zoom as i128 * 1000 + pan.1 as i128 * 10 * a.scale() as i128;
                assert_eq!(back_x, px as i128 * 10 * a.scale() as i128);
                assert_eq!(back_y, py as i128 * 10 * a.scale() as i128);
                let ax = a.x() as f64 / a.scale() as f64;
                let z = zoom as f64 / 10.0;
                let (ox, fx) = (pan.0 as f64 / 1000.0, px as f64 / 1000.0);
                assert!((ax * z + ox - fx).abs() <= 1e-9 * (1.0 + fx.abs() + ox.abs()));
            }
            zoom += 1;
        }
    }
}

#[test]
fn image_coordinates_ignore_a_drag_in_progress() {
    let mut state = MapState::new();
    state.begin_pan((0, 0));
    state.update_pan((50_000, 50_000));
    assert_eq!(
        pixels_to_image_coordinates(100_000, 100_000, &state),
        point(1_000_000, 1_000_000, 10_000)
    );
}

#[test]
fn image_coordinates_at_the_ends_of_the_pointer_range() {
    let mut state = MapState::new();
    state.adjust_zoom(-9);
    assert_eq!(
        pixels_to_image_coordinates(i32::MAX, i32::MIN, &state),
        point(21_474_836_470, -21_474_836_480, 1_000)
    );
    assert_eq!(
        pixels_to_meters(i32::MAX, i32::MIN, &state),
        (101_784_634_950_626, 101_804_729_756_398)
    );
}

#[test]
fn meters_of_the_image_corner() {
    assert_eq!(image_coordinates_to_meters(point(0, 0, 1_000)), (-13_854_505_769, 6_240_252_598));
    assert_eq!(
        image_coordinates_to_meters(point(0, 0, 50_000)),
        (MAP_SHIFT_X - ORIGIN_SHIFT, ORIGIN_SHIFT - MAP_SHIFT_Y)
    );
}

#[test]
fn meters_of_image_points() {
    assert_eq!(
        image_coordinates_to_meters(point(100_000, 100_000, 1_000)),
        (-13_380_469_613, 5_766_216_442)
    );
    assert_eq!(
        image_coordinates_to_meters(point(-1_500, -2_500, 1_000)),
        (-13_861_616_312, 6_252_103_502)
    );
    assert_eq!(
        image_coordinates_to_meters(point(18_181, 9_090, 1_000)),
        (-13_768_321_256, 6_197_162_712)
    );
    assert_eq!(
        image_coordinates_to_meters(point(200_000, 100_000, 11_000)),
        (-13_768_317_377, 6_197_158_402)
    );
    assert_eq!(image_coordinates_to_meters(point(1, 1, 1)), (-13_849_765_408, 6_235_512_237));
}

#[test]
fn meters_at_the_ends_of_the_range() {
    assert_eq!(
        image_coordinates_to_meters(point(1_945_710_663_769_635, 0, 1_000)).0,
        9_223_372_036_854_774_841
    );
    assert_eq!(
        image_coordinates_to_meters(point(i64::MAX, i64::MAX, i64::MAX)),
        (-13_849_765_408, 6_235_512_237)
    );
    assert_eq!(
        image_coordinates_to_meters(point(i64::MIN, 0, 1_000_000_000)).0,
        -43_722_132_174_607_609
    );
}

#[test]
fn pixels_to_meters_rounds_once() {
    let state = panned_and_zoomed((5_000, 0), 10);
    assert_eq!(pixels_to_meters(350_000, 200_000, &state), (-12_219_081_029, 5_292_180_285));
    let zoomed = panned_and_zoomed((5_000, 0), 11);
    assert_eq!(pixels_to_meters(25_000, 10_000, &zoomed), (-13_768_317_377, 6_197_158_402));
    let wide = panned_and_zoomed((-40_000, 70_000), 25);
    assert_eq!(pixels_to_meters(123_456, 654_321, &wide), (-13_544_569_553, 5_132_295_474));
    let tiny = panned_and_zoomed((0, 0), 3);
    assert_eq!(pixels_to_meters(1_000, 1_000, &tiny), (-13_838_704_564, 6_224_451_393));
    assert_eq!(pixels_to_meters(-1_000, 1, &tiny), (-13_870_306_975, 6_240_236_797));
    assert_eq!(pixels_to_meters(-1, -3, &tiny), (-13_854_521_571, 6_240_300_002));
    let a = pixels_to_image_coordinates(123_456, 654_321, &wide);
    assert_eq!(pixels_to_meters(123_456, 654_321, &wide), image_coordinates_to_meters(a));
}

#[test]
fn smallest_steps_move_the_projected_point_at_the_largest_zoom() {
    let state = panned_and_zoomed((0, 0), 50);
    assert_eq!(pixels_to_meters(0, 0, &state), (-13_854_505_769, 6_240_252_598));
    assert_eq!(pixels_to_meters(1, 1, &state), (-13_854_504_821, 6_240_251_650));
    assert_eq!(pixels_to_meters(2, 2, &state), (-13_854_503_873, 6_240_250_702));
    let mut p = -20;
    let mut last = pixels_to_meters(p, p, &state);
    while p < 20 {
        p += 1;
        let next = pixels_to_meters(p, p, &state);
        assert!(next.0 > last.0 && next.1 < last.1);
        assert_eq!(pixels_to_meters(p, 7, &state).0, next.0);
        assert_eq!(pixels_to_meters(7, p, &state).1, next.1);
        last = next;
    }
}

#[test]
fn steps_keep_their_order_at_every_zoom() {
    let pointers = [i32::MIN, -1_000_001, -1, 0, 1, 2, 999, 1_000, 350_000, i32::MAX - 1, i32::MAX];
    let mut zoom = 1;
    while zoom <= 50 {
        let state = panned_and_zoomed((-7_001, 12_345), zoom);
        let mut i = 1;
        while i < pointers.len() {
            let a = pixels_to_meters(pointers[i - 1], pointers[i - 1], &state);
            let b = pixels_to_meters(pointers[i], pointers[i], &state);
            assert!(a.0 < b.0 && a.1 > b.1, "zoom {zoom}, pointer {}", pointers[i]);
            i += 1;
        }
        zoom += 1;
    }
}

#[test]
fn meters_agree_with_the_floating_point_formula() {
    let pi = std::f64::consts::PI;
    let origin_shift = 2.0 * pi * (6_378_137.0 / 2.0);
    let resolution = (2.0 * pi * 6_378_137.0) / 8454.0;
    let map_shift_x = 108.0 * (2.0 * pi * 6_378_137.0) / 700.0;
    let map_shift_y = 241.0 * (2.0 * pi * 6_378_137.0) / 700.0;
    let mut state = MapState::new();
    state.begin_pan((0, 0));
    state.update_pan((37_500, -12_250));
    state.end_pan();
    let mut zoom = 10;
    while zoom <= 50 {
        let mut px = -200;
        while px <= 1400 {
            let mut py = -200;
            while py <= 900 {
                let (mx, my) = pixels_to_meters(px * 1000, py * 1000, &state);
                let ax = (px as f64 - 37.5) / (zoom as f64 / 10.0);
                let ay = (py as f64 + 12.25) / (zoom as f64 / 10.0);
                let fx = ax * resolution + map_shift_x - origin_shift;
                let fy = origin_shift - (ay * resolution + map_shift_y);
                assert!((mx as f64 / 1000.0 - fx).abs() < 0.003, "x at {px},{py} zoom {zoom}");
                assert!((my as f64 / 1000.0 - fy).abs() < 0.003, "y at {px},{py} zoom {zoom}");
                py += 275;
            }
            px += 400;
        }
        handle_event(&mut state, PointerEvent::Scroll { direction: ScrollDirection::Up });
        zoom += 1;
    }
}

#[test]
fn projection_round_trip_over_a_pixel_grid() {
    let pi = std::f64::consts::PI;
    let origin_shift = EARTH_CIRCUMFERENCE as f64 / 2000.0;
    let resolution = EARTH_CIRCUMFERENCE as f64 / 1000.0 / WORLD_SIZE_PIXELS as f64;
    let mut ax = 0;
    while ax <= 3000 {
        let mut ay = 0;
        while ay <= 2000 {
            let (mx, my) = image_coordinates_to_meters(point(ax, ay, 1));
            let (mx, my) = (mx as f64 / 1000.0, my as f64 / 1000.0);
            let lon = mx / origin_shift * 180.0;
            let lat = 180.0 / pi * (2.0 * (my / origin_shift * pi).exp().atan() - pi / 2.0);
            assert!((-180.0..=180.0).contains(&lon));
            assert!((-90.0..=90.0).contains(&lat));
            let back_x = lon * origin_shift / 180.0;
            let back_y = ((90.0 + lat) * pi / 360.0).tan().ln() / pi * origin_shift;
            let bx = (back_x + origin_shift - MAP_SHIFT_X as f64 / 1000.0) / resolution;
            let by = (origin_shift - back_y - MAP_SHIFT_Y as f64 / 1000.0) / resolution;
            assert!((bx - ax as f64).abs() < 1e-6, "x of {ax},{ay}: {bx}");
            assert!((by - ay as f64).abs() < 1e-6, "y of {ax},{ay}: {by}");
            ay += 125;
        }
        ax += 250;
    }
}

#[test]
fn image_origin_follows_the_drag_and_the_zoom() {
    let mut state = MapState::new();
    assert_eq!(image_origin(&state), point(0, 0, 10_000));
    state.begin_pan((0, 0));
    state.update_pan((30_000, -20_000));
    assert_eq!(image_origin(&state), point(300_000, -200_000, 10_000));
    state.end_pan();
    assert_eq!(image_origin(&state), point(300_000, -200_000, 10_000));
    state.begin_pan((0, 0));
    state.update_pan((1_000, 1_000));
    state.adjust_zoom(10);
    assert_eq!(image_origin(&state), point(310_000, -190_000, 20_000));
    state.adjust_zoom(-17);
    assert_eq!(image_origin(&state), point(310_000, -190_000, 3_000));
}
