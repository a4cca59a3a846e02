//! The pan and zoom state of the map view.
//!
//! [`ViewState`] is a plain record of the view and carries the mathematical
//! model: what each operation does is a spec function on it. [`MapState`] owns
//! one such record and only lets it change through those operations, so a
//! `MapState` is valid at all times.

use vstd::prelude::*;
use crate::fixed::clamp;

verus! {

/// Number of zoom units that make a zoom factor of one.
pub const ZOOM_SCALE: i64 = 10;

/// Smallest zoom level, a factor of 0.1.
pub const ZOOM_MIN: i64 = 1;

/// Largest zoom level, a factor of 5.0.
pub const ZOOM_MAX: i64 = 50;

/// Change of the zoom level for one notch of the scroll wheel.
pub const ZOOM_STEP: i64 = 1;

/// Largest magnitude of a committed pan offset, in thousandths of a pixel.
/// A commit that would leave this range stops at its border.
pub const PAN_LIMIT: i64 = 1_000_000_000_000;

/// Largest magnitude of a drag delta: the distance between the two most
/// distant pointer positions.
pub const DRAG_LIMIT: i64 = 4_294_967_295;

/// A snapshot of the view. Positions are in thousandths of a pixel,
/// `zoom_level` is in tenths.
#[derive(Clone, Copy, Debug, PartialEq, Eq)]
pub struct ViewState {
    /// Committed pan offset.
    pub pan_offset: (i64, i64),
    /// Pointer position at which the drag in progress began.
    pub pan_drag_start: (i32, i32),
    /// Movement of the drag in progress that is not committed yet.
    pub pan_drag_delta: (i64, i64),
    /// Whether a drag is in progress.
    pub is_panning: bool,
    /// Zoom factor in tenths.
    pub zoom_level: i64,
    /// Pointer position of the latest motion event.
    pub last_pointer_position: (i32, i32),
}

impl ViewState {
    /// The view at start-up: nothing panned, zoom factor one.
    pub open spec fn initial() -> ViewState {
        ViewState {
            pan_offset: (0, 0),
            pan_drag_start: (0, 0),
            pan_drag_delta: (0, 0),
            is_panning: false,
            zoom_level: ZOOM_SCALE,
            last_pointer_position: (0, 0),
        }
    }

    /// What holds of every view that the operations can reach.
    pub open spec fn valid(self) -> bool {
        &&& ZOOM_MIN <= self.zoom_level <= ZOOM_MAX
        &&& -PAN_LIMIT <= self.pan_offset.0 <= PAN_LIMIT
        &&& -PAN_LIMIT <= self.pan_offset.1 <= PAN_LIMIT
        &&& -DRAG_LIMIT <= self.pan_drag_delta.0 <= DRAG_LIMIT
        &&& -DRAG_LIMIT <= self.pan_drag_delta.1 <= DRAG_LIMIT
        &&& !self.is_panning ==> self.pan_drag_delta == (0i64, 0i64)
    }

    /// Whether the drag in progress has moved the image.
    pub open spec fn did_drag(self) -> bool {
        self.pan_drag_delta != (0i64, 0i64)
    }

    /// The view after a drag begins at `anchor`.
    pub open spec fn begin_pan(self, anchor: (i32, i32)) -> ViewState {
        ViewState { is_panning: true, pan_drag_start: anchor, ..self }
    }

    /// The view after the pointer moves to `pointer`: during a drag the
    /// delta becomes the distance from the anchor, otherwise nothing changes.
    pub open spec fn update_pan(self, pointer: (i32, i32)) -> ViewState {
        if self.is_panning {
            ViewState {
                pan_drag_delta: (
                    (pointer.0 - self.pan_drag_start.0) as i64,
                    (pointer.1 - self.pan_drag_start.1) as i64,
                ),
                ..self
            }
        } else {
            self
        }
    }

    /// The view after the drag ends: the delta is added to the offset, which
    /// stays within `PAN_LIMIT`, and the delta and the drag flag are cleared.
    pub open spec fn end_pan(self) -> ViewState {
        ViewState {
            pan_offset: (
                clamp(self.pan_offset.0 + self.pan_drag_delta.0, -PAN_LIMIT, PAN_LIMIT as int) as i64,
                clamp(self.pan_offset.1 + self.pan_drag_delta.1, -PAN_LIMIT, PAN_LIMIT as int) as i64,
            ),
            pan_drag_delta: (0, 0),
            is_panning: false,
            ..self
        }
    }

    /// The view after the zoom level changes by `delta`, kept between
    /// `ZOOM_MIN` and `ZOOM_MAX`.
    pub open spec fn adjust_zoom(self, delta: i64) -> ViewState {
        ViewState {
            zoom_level: clamp(self.zoom_level + delta, ZOOM_MIN as int, ZOOM_MAX as int) as i64,
            ..self
        }
    }

    /// The view after the pointer position is recorded.
    pub open spec fn set_pointer(self, pos: (i32, i32)) -> ViewState {
        ViewState { last_pointer_position: pos, ..self }
    }

    /// The start-up view is valid.
    pub proof fn lemma_initial_valid()
        ensures
            ViewState::initial().valid(),
    {
    }

    /// Every operation takes a valid view to a valid view.
    pub proof fn lemma_operations_keep_valid(self, pos: (i32, i32), delta: i64)
        requires
            self.valid(),
        ensures
            self.begin_pan(pos).valid(),
            self.update_pan(pos).valid(),
            self.end_pan().valid(),
            self.adjust_zoom(delta).valid(),
            self.set_pointer(pos).valid(),
    {
    }

    /// The committed offset changes only when a drag ends, and then by the
    /// drag delta, as far as `PAN_LIMIT` allows.
    pub proof fn lemma_offset_changes_only_by_commit(self, pos: (i32, i32), delta: i64)
        requires
            self.valid(),
        ensures
            self.begin_pan(pos).pan_offset == self.pan_offset,
            self.update_pan(pos).pan_offset == self.pan_offset,
            self.adjust_zoom(delta).pan_offset == self.pan_offset,
            self.set_pointer(pos).pan_offset == self.pan_offset,
            -PAN_LIMIT <= self.pan_offset.0 + self.pan_drag_delta.0 <= PAN_LIMIT
                ==> self.end_pan().pan_offset.0 == self.pan_offset.0 + self.pan_drag_delta.0,
            -PAN_LIMIT <= self.pan_offset.1 + self.pan_drag_delta.1 <= PAN_LIMIT
                ==> self.end_pan().pan_offset.1 == self.pan_offset.1 + self.pan_drag_delta.1,
    {
    }
}

/// The view of a running application. It starts as [`ViewState::initial`]
/// and changes only through the operations below.
pub struct MapState {
    state: ViewState,
}

impl View for MapState {
    type V = ViewState;

    closed spec fn view(&self) -> ViewState {
        self.state
    }
}

impl MapState {
    #[verifier::type_invariant]
    pub closed spec fn well_formed(self) -> bool {
        self.state.valid()
    }

    /// A view with nothing panned and a zoom factor of one.
    pub fn new() -> (s: MapState)
        ensures
            s@ == ViewState::initial(),
            s@.valid(),
    {
        MapState {
            state: ViewState {
                pan_offset: (0, 0),
                pan_drag_start: (0, 0),
                pan_drag_delta: (0, 0),
                is_panning: false,
                zoom_level: ZOOM_SCALE,
                last_pointer_position: (0, 0),
            },
        }
    }

    /// A snapshot of the whole view.
    pub fn read(&self) -> (s: ViewState)
        ensures
            s == self@,
            s.valid(),
    {
        proof {
            use_type_invariant(self);
        }
        self.state
    }

    /// Starts a drag at `anchor`.
    pub fn begin_pan(&mut self, anchor: (i32, i32))
        ensures
            final(self)@ == old(self)@.begin_pan(anchor),
            final(self)@.valid(),
    {
        proof {
            use_type_invariant(&*self);
        }
        let s = self.state;
        self.state = ViewState { is_panning: true, pan_drag_start: anchor, ..s };
    }

    /// Follows the pointer to `pointer` while a drag is in progress.
    pub fn update_pan(&mut self, pointer: (i32, i32))
        ensures
            final(self)@ == old(self)@.update_pan(pointer),
            final(self)@.valid(),
    {
        proof {
            use_type_invariant(&*self);
        }
        let s = self.state;
        if s.is_panning {
            let dx: i64 = pointer.0 as i64 - s.pan_drag_start.0 as i64;
            let dy: i64 = pointer.1 as i64 - s.pan_drag_start.1 as i64;
            self.state = ViewState { pan_drag_delta: (dx, dy), ..s };
        }
    }

    /// Ends the drag and commits its delta. Returns whether the drag moved
    /// the image: `false` means that the press and release were a click.
    pub fn end_pan(&mut self) -> (dragged: bool)
        ensures
            final(self)@ == old(self)@.end_pan(),
            dragged == old(self)@.did_drag(),
            final(self)@.valid(),
    {
        proof {
            use_type_invariant(&*self);
        }
        let s = self.state;
        let dragged = !(s.pan_drag_delta.0 == 0 && s.pan_drag_delta.1 == 0);
        let x = clamp_pan(s.pan_offset.0 + s.pan_drag_delta.0);
        let y = clamp_pan(s.pan_offset.1 + s.pan_drag_delta.1);
        self.state = ViewState {
            pan_offset: (x, y),
            pan_drag_delta: (0, 0),
            is_panning: false,
            ..s
        };
        dragged
    }

    /// Changes the zoom level by `delta` tenths, staying within the bounds.
    pub fn adjust_zoom(&mut self, delta: i64)
        ensures
            final(self)@ == old(self)@.adjust_zoom(delta),
            final(self)@.valid(),
    {
        proof {
            use_type_invariant(&*self);
        }
        let s = self.state;
        let zoom: i64 = if delta >= ZOOM_MAX - s.zoom_level {
            ZOOM_MAX
        } else if delta <= ZOOM_MIN - s.zoom_level {
            ZOOM_MIN
        } else {
            s.zoom_level + delta
        };
        self.state = ViewState { zoom_level: zoom, ..s };
    }

    /// Records the pointer position.
    pub fn set_pointer(&mut self, pos: (i32, i32))
        ensures
            final(self)@ == old(self)@.set_pointer(pos),
            final(self)@.valid(),
    {
        proof {
            use_type_invariant(&*self);
        }
        let s = self.state;
        self.state = ViewState { last_pointer_position: pos, ..s };
    }
}

/// Keeps a pan offset within `PAN_LIMIT`.
fn clamp_pan(v: i64) -> (r: i64)
    ensures
        r == clamp(v as int, -PAN_LIMIT, PAN_LIMIT as int),
{
    if v < -PAN_LIMIT {
        -PAN_LIMIT
    } else if v > PAN_LIMIT {
        PAN_LIMIT
    } else {
        v
    }
}

} // verus!
