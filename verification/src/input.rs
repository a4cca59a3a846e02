//! From pointer events to changes of the view and to click queries.
//!
//! A button press begins a drag, motion extends it, and the release ends it.
//! A release whose drag never moved the image is a click: it asks for a
//! prediction at the released position. Any movement, however small, makes
//! the gesture a pan, and a pan never asks for a prediction.

use vstd::prelude::*;
use crate::transform::image_fraction;
use crate::transform::ImagePoint;
use crate::transform::pixels_to_image_coordinates;
use crate::transform::pixels_to_meters;
use crate::transform::projected;
use crate::view::MapState;
use crate::view::ViewState;
use crate::view::ZOOM_MAX;
use crate::view::ZOOM_MIN;
use crate::view::ZOOM_STEP;

verus! {

/// Direction of one notch of the scroll wheel.
#[derive(Clone, Copy, Debug, PartialEq, Eq)]
pub enum ScrollDirection {
    Up,
    Down,
    /// Sideways or smooth scrolling, which leaves the zoom level alone.
    Other,
}

/// An event of the pointer device. Positions are in thousandths of a pixel.
#[derive(Clone, Copy, Debug, PartialEq, Eq)]
pub enum PointerEvent {
    ButtonPress { position: (i32, i32) },
    ButtonRelease { position: (i32, i32) },
    Motion { position: (i32, i32) },
    Scroll { direction: ScrollDirection },
}

/// Where the pointer is: in the map image, as an exact fraction of pixels,
/// and in projected coordinates, in millimetres.
#[derive(Clone, Copy, Debug, PartialEq, Eq)]
pub struct CursorReadout {
    pub image: ImagePoint,
    pub meters: (i64, i64),
}

/// What the caller has to do after an event.
#[derive(Clone, Copy, Debug, PartialEq, Eq)]
pub struct Reaction {
    /// The image has to be drawn again.
    pub redraw: bool,
    /// The event completed a click on this projected point, for which a
    /// prediction is to be requested.
    pub click: Option<(i64, i64)>,
    /// The pointer moved: the new readout for the status line.
    pub cursor: Option<CursorReadout>,
}

/// The change of the zoom level that a scroll event asks for.
pub open spec fn zoom_delta(direction: ScrollDirection) -> i64 {
    match direction {
        ScrollDirection::Up => ZOOM_STEP,
        ScrollDirection::Down => (-ZOOM_STEP) as i64,
        ScrollDirection::Other => 0,
    }
}

/// The readout for a pointer at `position` over the view `v`.
pub open spec fn readout(position: (i32, i32), v: ViewState) -> CursorReadout {
    CursorReadout {
        image: ImagePoint::of(image_fraction(position.0 as int, position.1 as int, v)),
        meters: click_point(position, v),
    }
}

/// The projected point under `position` in the view `v`.
pub open spec fn click_point(position: (i32, i32), v: ViewState) -> (i64, i64) {
    (
        projected(position.0 as int, position.1 as int, v).0 as i64,
        projected(position.0 as int, position.1 as int, v).1 as i64,
    )
}

/// The view after the event `e`.
pub open spec fn step(v: ViewState, e: PointerEvent) -> ViewState {
    match e {
        PointerEvent::ButtonPress { position } => v.begin_pan(position),
        PointerEvent::ButtonRelease { position } => v.end_pan(),
        PointerEvent::Motion { position } => v.set_pointer(position).update_pan(position),
        PointerEvent::Scroll { direction } => v.adjust_zoom(zoom_delta(direction)),
    }
}

/// What the event `e` asks of the caller when it arrives in the view `v`.
///
/// A release is a click exactly if the drag has not moved the image; the
/// click is located with the view as it is after the release. Motion redraws
/// during a drag and always reports the cursor. Scrolling always redraws.
pub open spec fn reaction(v: ViewState, e: PointerEvent) -> Reaction {
    match e {
        PointerEvent::ButtonPress { position } => Reaction {
            redraw: false,
            click: None,
            cursor: None,
        },
        PointerEvent::ButtonRelease { position } => Reaction {
            redraw: false,
            click: if v.did_drag() {
                None
            } else {
                Some(click_point(position, v.end_pan()))
            },
            cursor: None,
        },
        PointerEvent::Motion { position } => Reaction {
            redraw: v.is_panning,
            click: None,
            cursor: Some(readout(position, step(v, e))),
        },
        PointerEvent::Scroll { direction } => Reaction { redraw: true, click: None, cursor: None },
    }
}

/// The view after the events `events`, taken in order.
pub open spec fn run(v: ViewState, events: Seq<PointerEvent>) -> ViewState
    decreases events.len(),
{
    if events.len() == 0 {
        v
    } else {
        step(run(v, events.drop_last()), events.last())
    }
}

/// The clicks that the events `events` complete, in order.
pub open spec fn clicks(v: ViewState, events: Seq<PointerEvent>) -> Seq<(i64, i64)>
    decreases events.len(),
{
    if events.len() == 0 {
        Seq::empty()
    } else {
        let before = run(v, events.drop_last());
        match reaction(before, events.last()).click {
            Some(point) => clicks(v, events.drop_last()).push(point),
            None => clicks(v, events.drop_last()),
        }
    }
}

/// The zoom change of a scroll direction.
fn scroll_delta(direction: ScrollDirection) -> (d: i64)
    ensures
        d == zoom_delta(direction),
{
    match direction {
        ScrollDirection::Up => ZOOM_STEP,
        ScrollDirection::Down => -ZOOM_STEP,
        ScrollDirection::Other => 0,
    }
}

/// Applies one pointer event to the view and says what the caller has to do.
pub fn handle_event(state: &mut MapState, event: PointerEvent) -> (r: Reaction)
    ensures
        final(state)@ == step(old(state)@, event),
        final(state)@.valid(),
        r == reaction(old(state)@, event),
{
    match event {
        PointerEvent::ButtonPress { position } => {
            state.begin_pan(position);
            Reaction { redraw: false, click: None, cursor: None }
        },
        PointerEvent::ButtonRelease { position } => {
            let dragged = state.end_pan();
            let click = if dragged {
                None
            } else {
                Some(pixels_to_meters(position.0, position.1, state))
            };
            Reaction { redraw: false, click, cursor: None }
        },
        PointerEvent::Motion { position } => {
            let panning = state.read().is_panning;
            state.set_pointer(position);
            state.update_pan(position);
            let image = pixels_to_image_coordinates(position.0, position.1, state);
            let meters = pixels_to_meters(position.0, position.1, state);
            Reaction {
                redraw: panning,
                click: None,
                cursor: Some(CursorReadout { image, meters }),
            }
        },
        PointerEvent::Scroll { direction } => {
            state.adjust_zoom(scroll_delta(direction));
            Reaction { redraw: true, click: None, cursor: None }
        },
    }
}

/// Every event takes a valid view to a valid view.
pub proof fn lemma_step_keeps_valid(v: ViewState, e: PointerEvent)
    requires
        v.valid(),
    ensures
        step(v, e).valid(),
{
}

/// Whatever events arrive, the view stays valid: in particular the zoom
/// level never leaves the range from `ZOOM_MIN` to `ZOOM_MAX`.
pub proof fn lemma_run_keeps_valid(v: ViewState, events: Seq<PointerEvent>)
    requires
        v.valid(),
    ensures
        run(v, events).valid(),
        ZOOM_MIN <= run(v, events).zoom_level <= ZOOM_MAX,
    decreases events.len(),
{
    if events.len() > 0 {
        lemma_run_keeps_valid(v, events.drop_last());
        lemma_step_keeps_valid(run(v, events.drop_last()), events.last());
    }
}

/// `n` scroll events in the direction `direction`.
pub open spec fn scrolls(direction: ScrollDirection, n: nat) -> Seq<PointerEvent> {
    Seq::new(n, |i: int| PointerEvent::Scroll { direction })
}

/// Scrolling up `n` times raises the zoom level by `n` steps and stops at
/// `ZOOM_MAX`; scrolling down lowers it and stops at `ZOOM_MIN`. Nothing
/// else in the view changes.
pub proof fn lemma_scrolling_stops_at_bounds(v: ViewState, n: nat)
    requires
        v.valid(),
    ensures
        run(v, scrolls(ScrollDirection::Up, n)) == (ViewState {
            zoom_level: (if v.zoom_level + n * ZOOM_STEP <= ZOOM_MAX {
                v.zoom_level + n * ZOOM_STEP
            } else {
                ZOOM_MAX as int
            }) as i64,
            ..v
        }),
        run(v, scrolls(ScrollDirection::Down, n)) == (ViewState {
            zoom_level: (if v.zoom_level - n * ZOOM_STEP >= ZOOM_MIN {
                v.zoom_level - n * ZOOM_STEP
            } else {
                ZOOM_MIN as int
            }) as i64,
            ..v
        }),
    decreases n,
{
    if n > 0 {
        let m = (n - 1) as nat;
        lemma_scrolling_stops_at_bounds(v, m);
        assert(scrolls(ScrollDirection::Up, n).drop_last() =~= scrolls(ScrollDirection::Up, m));
        assert(scrolls(ScrollDirection::Down, n).drop_last() =~= scrolls(
            ScrollDirection::Down,
            m,
        ));
    }
}

/// A release is a click exactly if the drag has not moved the image, and a
/// click is located in the view as the release leaves it.
pub proof fn lemma_click_iff_no_drag(v: ViewState, position: (i32, i32))
    requires
        v.valid(),
    ensures
        reaction(v, PointerEvent::ButtonRelease { position }).click is Some <==> v.pan_drag_delta
            == (0i64, 0i64),
        !v.did_drag() ==> reaction(v, PointerEvent::ButtonRelease { position }).click == Some(
            click_point(position, v),
        ),
        !v.did_drag() ==> step(v, PointerEvent::ButtonRelease { position }).pan_offset
            == v.pan_offset,
{
}

/// A press and a release with no motion between them complete exactly one
/// click, at the released position, and leave the image where it was.
pub proof fn lemma_press_release_is_one_click(
    v: ViewState,
    pressed: (i32, i32),
    released: (i32, i32),
)
    requires
        v.valid(),
        !v.is_panning,
    ensures
        clicks(
            v,
            seq![
                PointerEvent::ButtonPress { position: pressed },
                PointerEvent::ButtonRelease { position: released },
            ],
        ) == seq![click_point(released, v)],
        run(
            v,
            seq![
                PointerEvent::ButtonPress { position: pressed },
                PointerEvent::ButtonRelease { position: released },
            ],
        ) == (ViewState { pan_drag_start: pressed, ..v }),
{
    let press = PointerEvent::ButtonPress { position: pressed };
    let release = PointerEvent::ButtonRelease { position: released };
    let both = seq![press, release];
    let first = seq![press];
    assert(both.drop_last() =~= first);
    assert(first.drop_last() =~= Seq::<PointerEvent>::empty());
    assert(run(v, first.drop_last()) == v);
    assert(run(v, first) == v.begin_pan(pressed));
    assert(clicks(v, first.drop_last()) =~= Seq::<(i64, i64)>::empty());
    assert(clicks(v, first) =~= Seq::<(i64, i64)>::empty());
    assert(v.begin_pan(pressed).end_pan() == (ViewState { pan_drag_start: pressed, ..v }));
    assert(clicks(v, both) =~= seq![click_point(released, v)]);
}

/// A press, a motion to another position and a release complete no click:
/// the gesture is a pan, and the movement is committed to the pan offset.
/// If the motion returns to the pressed position, the gesture is a click.
pub proof fn lemma_press_move_release(
    v: ViewState,
    pressed: (i32, i32),
    moved: (i32, i32),
    released: (i32, i32),
)
    requires
        v.valid(),
        !v.is_panning,
    ensures
        ({
            let events = seq![
                PointerEvent::ButtonPress { position: pressed },
                PointerEvent::Motion { position: moved },
                PointerEvent::ButtonRelease { position: released },
            ];
            let moved_view = v.begin_pan(pressed).set_pointer(moved).update_pan(moved);
            &&& run(v, events) == moved_view.end_pan()
            &&& moved_view.pan_drag_delta == (
                (moved.0 - pressed.0) as i64,
                (moved.1 - pressed.1) as i64,
            )
            &&& moved != pressed ==> clicks(v, events) == Seq::<(i64, i64)>::empty()
            &&& moved == pressed ==> clicks(v, events) == seq![
                click_point(released, moved_view.end_pan()),
            ]
        }),
{
    let press = PointerEvent::ButtonPress { position: pressed };
    let motion = PointerEvent::Motion { position: moved };
    let release = PointerEvent::ButtonRelease { position: released };
    let three = seq![press, motion, release];
    let two = seq![press, motion];
    let one = seq![press];
    assert(three.drop_last() =~= two);
    assert(two.drop_last() =~= one);
    assert(one.drop_last() =~= Seq::<PointerEvent>::empty());
    assert(run(v, one.drop_last()) == v);
    assert(run(v, one) == v.begin_pan(pressed));
    assert(run(v, two) == v.begin_pan(pressed).set_pointer(moved).update_pan(moved));
    assert(clicks(v, one.drop_last()) =~= Seq::<(i64, i64)>::empty());
    assert(clicks(v, one) =~= Seq::<(i64, i64)>::empty());
    assert(clicks(v, two) =~= Seq::<(i64, i64)>::empty());
    let moved_view = run(v, two);
    if moved == pressed {
        assert(clicks(v, three) =~= seq![click_point(released, moved_view.end_pan())]);
    } else {
        assert(moved.0 != pressed.0 || moved.1 != pressed.1);
        assert(moved_view.did_drag());
        assert(clicks(v, three) =~= Seq::<(i64, i64)>::empty());
    }
}

} // verus!
