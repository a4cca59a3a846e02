use project_smokey::input::handle_event;
use project_smokey::input::CursorReadout;
use project_smokey::input::PointerEvent;
use project_smokey::input::Reaction;
use project_smokey::input::ScrollDirection;
use project_smokey::transform::ImagePoint;
use project_smokey::view::MapState;

const QUIET: Reaction = Reaction { redraw: false, click: None, cursor: None };

#[test]
fn press_and_release_in_place_is_one_click() {
    let mut state = MapState::new();
    let mut requests = 0;
    let press = handle_event(&mut state, PointerEvent::ButtonPress { position: (100_000, 100_000) });
    if press.click.is_some() {
        requests += 1;
    }
    assert_eq!(press, QUIET);
    let release =
        handle_event(&mut state, PointerEvent::ButtonRelease { position: (100_000, 100_000) });
    if release.click.is_some() {
        requests += 1;
    }
    assert_eq!(requests, 1);
    assert_eq!(release.click, Some((-13_380_469_613, 5_766_216_442)));
    assert!(!release.redraw);
    assert_eq!(release.cursor, None);
    assert_eq!(state.read().pan_offset, (0, 0));
    assert!(!state.read().is_panning);
}

#[test]
fn press_drag_release_is_a_pan_without_request() {
    let mut state = MapState::new();
    let mut requests = 0;
    let events = [
        PointerEvent::ButtonPress { position: (100_000, 100_000) },
        PointerEvent::Motion { position: (105_000, 100_000) },
        PointerEvent::ButtonRelease { position: (105_000, 100_000) },
    ];
    for event in events {
        if handle_event(&mut state, event).click.is_some() {
            requests += 1;
        }
    }
    assert_eq!(requests, 0);
    let v = state.read();
    assert_eq!(v.pan_offset, (5_000, 0));
    assert_eq!(v.pan_drag_delta, (0, 0));
    assert!(!v.is_panning);
}

#[test]
fn release_elsewhere_without_motion_is_still_a_click() {
    let mut state = MapState::new();
    handle_event(&mut state, PointerEvent::ButtonPress { position: (100_000, 100_000) });
    let release =
        handle_event(&mut state, PointerEvent::ButtonRelease { position: (350_000, 200_000) });
    assert_eq!(release.click, Some((-12_195_379_221, 5_292_180_285)));
    assert_eq!(state.read().pan_offset, (0, 0));
}

#[test]
fn click_is_located_in_the_committed_view() {
    let mut state = MapState::new();
    handle_event(&mut state, PointerEvent::ButtonPress { position: (100_000, 100_000) });
    handle_event(&mut state, PointerEvent::Motion { position: (105_000, 100_000) });
    handle_event(&mut state, PointerEvent::ButtonRelease { position: (105_000, 100_000) });
    handle_event(&mut state, PointerEvent::ButtonPress { position: (350_000, 200_000) });
    let release =
        handle_event(&mut state, PointerEvent::ButtonRelease { position: (350_000, 200_000) });
    assert_eq!(release.click, Some((-12_219_081_029, 5_292_180_285)));
}

#[test]
fn motion_while_idle_reports_the_cursor_without_redraw() {
    let mut state = MapState::new();
    let r = handle_event(&mut state, PointerEvent::Motion { position: (100_000, 100_000) });
    assert_eq!(
        r,
        Reaction {
            redraw: false,
            click: None,
            cursor: Some(CursorReadout {
                image: ImagePoint::new(1_000_000, 1_000_000, 10_000).unwrap(),
                meters: (-13_380_469_613, 5_766_216_442),
            }),
        }
    );
    let v = state.read();
    assert_eq!(v.last_pointer_position, (100_000, 100_000));
    assert_eq!(v.pan_drag_delta, (0, 0));
}

#[test]
fn motion_during_a_drag_redraws_and_ignores_the_open_delta() {
    let mut state = MapState::new();
    handle_event(&mut state, PointerEvent::ButtonPress { position: (0, 0) });
    let r = handle_event(&mut state, PointerEvent::Motion { position: (100_000, 100_000) });
    assert!(r.redraw);
    assert_eq!(
        r.cursor,
        Some(CursorReadout {
            image: ImagePoint::new(1_000_000, 1_000_000, 10_000).unwrap(),
            meters: (-13_380_469_613, 5_766_216_442),
        })
    );
    let v = state.read();
    assert_eq!(v.pan_drag_delta, (100_000, 100_000));
    assert_eq!(v.last_pointer_position, (100_000, 100_000));
    assert_eq!(v.pan_offset, (0, 0));
}

#[test]
fn click_and_readout_are_exact_when_zoomed() {
    let mut state = MapState::new();
    handle_event(&mut state, PointerEvent::Scroll { direction: ScrollDirection::Up });
    let motion = handle_event(&mut state, PointerEvent::Motion { position: (20_000, 10_000) });
    assert_eq!(
        motion.cursor,
        Some(CursorReadout {
            image: ImagePoint::new(200_000, 100_000, 11_000).unwrap(),
            meters: (-13_768_317_377, 6_197_158_402),
        })
    );
    handle_event(&mut state, PointerEvent::ButtonPress { position: (20_000, 10_000) });
    let release =
        handle_event(&mut state, PointerEvent::ButtonRelease { position: (20_000, 10_000) });
    assert_eq!(release.click, Some((-13_768_317_377, 6_197_158_402)));
}

#[test]
fn scroll_changes_zoom_by_one_step_and_redraws() {
    let mut state = MapState::new();
    let up = handle_event(&mut state, PointerEvent::Scroll { direction: ScrollDirection::Up });
    assert_eq!(up, Reaction { redraw: true, click: None, cursor: None });
    assert_eq!(state.read().zoom_level, 11);
    handle_event(&mut state, PointerEvent::Scroll { direction: ScrollDirection::Down });
    handle_event(&mut state, PointerEvent::Scroll { direction: ScrollDirection::Down });
    assert_eq!(state.read().zoom_level, 9);
    let other =
        handle_event(&mut state, PointerEvent::Scroll { direction: ScrollDirection::Other });
    assert!(other.redraw);
    assert_eq!(state.read().zoom_level, 9);
}

#[test]
fn scrolling_up_never_exceeds_the_maximum() {
    let mut state = MapState::new();
    let mut n = 0;
    while n < 200 {
        handle_event(&mut state, PointerEvent::Scroll { direction: ScrollDirection::Up });
        let zoom = state.read().zoom_level;
        assert!(zoom <= 50);
        assert_eq!(zoom, if n < 40 { 11 + n } else { 50 });
        n += 1;
    }
    assert_eq!(state.read().zoom_level, 50);
}

#[test]
fn scrolling_down_never_drops_below_the_minimum() {
    let mut state = MapState::new();
    let mut n = 0;
    while n < 200 {
        handle_event(&mut state, PointerEvent::Scroll { direction: ScrollDirection::Down });
        let zoom = state.read().zoom_level;
        assert!(zoom >= 1);
        assert_eq!(zoom, if n < 9 { 9 - n } else { 1 });
        n += 1;
    }
    assert_eq!(state.read().zoom_level, 1);
}

#[test]
fn second_press_during_a_drag_moves_the_anchor_only() {
    let mut state = MapState::new();
    handle_event(&mut state, PointerEvent::ButtonPress { position: (10_000, 10_000) });
    handle_event(&mut state, PointerEvent::Motion { position: (12_000, 10_000) });
    handle_event(&mut state, PointerEvent::ButtonPress { position: (50_000, 50_000) });
    let v = state.read();
    assert_eq!(v.pan_drag_start, (50_000, 50_000));
    assert_eq!(v.pan_drag_delta, (2_000, 0));
    let release = handle_event(&mut state, PointerEvent::ButtonRelease { position: (50_000, 50_000) });
    assert_eq!(release.click, None);
    assert_eq!(state.read().pan_offset, (2_000, 0));
}

#[test]
fn release_while_idle_is_a_click() {
    let mut state = MapState::new();
    let release = handle_event(&mut state, PointerEvent::ButtonRelease { position: (0, 0) });
    assert_eq!(release.click, Some((-13_854_505_769, 6_240_252_598)));
}
