//! From a position on the screen to projected coordinates.
//!
//! A screen position becomes a position in the map image by undoing the pan
//! and the zoom of the view. That position is kept as an exact fraction of
//! pixels, so nothing is lost on the way. A position in the image becomes a
//! point in spherical Mercator coordinates by the calibration of the image;
//! this is the only step that rounds, down and by less than a millimetre.

use vstd::prelude::*;
use crate::fixed::floor_div;
use crate::fixed::lemma_floor_div_bounds;
use crate::fixed::lemma_floor_div_magnitude;
use crate::view::MapState;
use crate::view::ViewState;
use crate::view::DRAG_LIMIT;
use crate::view::PAN_LIMIT;
use crate::view::ZOOM_MAX;
use crate::view::ZOOM_MIN;
use crate::view::ZOOM_SCALE;

verus! {

/// Number of coordinate units that make one pixel.
pub const PIXEL_SCALE: i64 = 1000;

/// Length of the equator of the projection sphere in millimetres: the radius
/// of 6378137 m times two pi.
pub const EARTH_CIRCUMFERENCE: i64 = 40_075_016_686;

/// Width and height in pixels that the whole world would have at the
/// resolution of the map image.
pub const WORLD_SIZE_PIXELS: i64 = 8454;

/// Distance in millimetres from the edge of the unrolled world to its
/// centre: half of `EARTH_CIRCUMFERENCE`.
pub const ORIGIN_SHIFT: i64 = 20_037_508_343;

/// Distance in millimetres of the left edge of the image from the left edge
/// of the world: 108/700 of `EARTH_CIRCUMFERENCE`.
pub const MAP_SHIFT_X: i64 = 6_183_002_574;

/// Distance in millimetres of the upper edge of the image from the upper
/// edge of the world: 241/700 of `EARTH_CIRCUMFERENCE`.
pub const MAP_SHIFT_Y: i64 = 13_797_255_745;

/// Largest magnitude of a numerator that a valid view gives an image
/// position: the widest offset and drag together, times `ZOOM_SCALE`.
pub const IMAGE_LIMIT: i64 = 10_042_949_672_950;

/// The distance on the ground, in millimetres, of `numerator / scale` image
/// pixels, rounded down.
pub open spec fn ground_distance(numerator: int, scale: int) -> int {
    floor_div(numerator * EARTH_CIRCUMFERENCE, scale * WORLD_SIZE_PIXELS)
}

/// A position in the map image as a mathematical value: `x / scale` pixels
/// right of and `y / scale` pixels below its upper left corner.
pub struct ImageFraction {
    pub x: int,
    pub y: int,
    pub scale: int,
}

impl ImageFraction {
    /// The Mercator easting of the position, in millimetres.
    pub open spec fn easting(self) -> int {
        ground_distance(self.x, self.scale) + MAP_SHIFT_X - ORIGIN_SHIFT
    }

    /// The Mercator northing of the position, in millimetres. Image rows
    /// count downwards from the upper edge of the world, northings upwards
    /// from the equator.
    pub open spec fn northing(self) -> int {
        ORIGIN_SHIFT - (ground_distance(self.y, self.scale) + MAP_SHIFT_Y)
    }

    /// Whether the position can be held and projected: the denominator is
    /// positive, and the three numbers and both projected coordinates fit
    /// in 64 bits.
    pub open spec fn representable(self) -> bool {
        &&& 0 < self.scale <= i64::MAX
        &&& i64::MIN <= self.x <= i64::MAX
        &&& i64::MIN <= self.y <= i64::MAX
        &&& i64::MIN <= self.easting() <= i64::MAX
        &&& i64::MIN <= self.northing() <= i64::MAX
    }
}

/// The image position under the screen position `(px, py)` in the view `v`:
/// the distance from the pan offset divided by the zoom factor, exactly.
pub open spec fn image_fraction(px: int, py: int, v: ViewState) -> ImageFraction {
    ImageFraction {
        x: (px - v.pan_offset.0) * ZOOM_SCALE,
        y: (py - v.pan_offset.1) * ZOOM_SCALE,
        scale: v.zoom_level * PIXEL_SCALE,
    }
}

/// Where the upper left corner of the image is drawn in the view `v`, on a
/// surface scaled by the zoom factor: the committed offset and the delta of
/// the drag in progress together, divided by the zoom factor, exactly.
pub open spec fn drawn_origin(v: ViewState) -> ImageFraction {
    ImageFraction {
        x: (v.pan_offset.0 + v.pan_drag_delta.0) * ZOOM_SCALE,
        y: (v.pan_offset.1 + v.pan_drag_delta.1) * ZOOM_SCALE,
        scale: v.zoom_level * PIXEL_SCALE,
    }
}

/// The projected point under the screen position `(px, py)` in the view `v`.
pub open spec fn projected(px: int, py: int, v: ViewState) -> (int, int) {
    (image_fraction(px, py, v).easting(), image_fraction(px, py, v).northing())
}

/// A position in the map image, held as an exact fraction of pixels. Every
/// value of this type can be projected.
#[derive(Clone, Copy, Debug, PartialEq, Eq)]
pub struct ImagePoint {
    x: i64,
    y: i64,
    scale: i64,
}

impl View for ImagePoint {
    type V = ImageFraction;

    closed spec fn view(&self) -> ImageFraction {
        ImageFraction { x: self.x as int, y: self.y as int, scale: self.scale as int }
    }
}

impl ImagePoint {
    #[verifier::type_invariant]
    pub closed spec fn well_formed(self) -> bool {
        self@.representable()
    }

    /// The point that holds the fraction `f`.
    pub closed spec fn of(f: ImageFraction) -> ImagePoint {
        ImagePoint { x: f.x as i64, y: f.y as i64, scale: f.scale as i64 }
    }

    /// A point holds exactly the fraction it was made of, and two points
    /// that hold the same fraction are the same point.
    pub proof fn lemma_point_is_its_fraction(f: ImageFraction, a: ImagePoint)
        ensures
            f.representable() ==> ImagePoint::of(f)@ == f,
            a == ImagePoint::of(a@),
    {
    }

    /// The position `x / scale` pixels right of and `y / scale` pixels below
    /// the upper left corner of the image. Returns `None` exactly if the
    /// denominator is not positive or a projected coordinate of the position
    /// does not fit in 64 bits.
    pub fn new(x: i64, y: i64, scale: i64) -> (r: Option<ImagePoint>)
        ensures
            r is Some <==> (ImageFraction {
                x: x as int,
                y: y as int,
                scale: scale as int,
            }).representable(),
            r matches Some(a) ==> a@ == (ImageFraction {
                x: x as int,
                y: y as int,
                scale: scale as int,
            }),
    {
        if scale <= 0 {
            return None;
        }
        let east: i128 = to_ground(x, scale) + 6_183_002_574 - 20_037_508_343;
        let north: i128 = 20_037_508_343 - (to_ground(y, scale) + 13_797_255_745);
        let low: i128 = -9_223_372_036_854_775_808;
        let high: i128 = 9_223_372_036_854_775_807;
        if low <= east && east <= high && low <= north && north <= high {
            Some(ImagePoint { x, y, scale })
        } else {
            None
        }
    }

    /// The numerator of the horizontal position.
    pub fn x(&self) -> (n: i64)
        ensures
            n == self@.x,
    {
        self.x
    }

    /// The numerator of the vertical position.
    pub fn y(&self) -> (n: i64)
        ensures
            n == self@.y,
    {
        self.y
    }

    /// The denominator of both positions, which is positive.
    pub fn scale(&self) -> (d: i64)
        ensures
            d == self@.scale,
            d > 0,
    {
        proof {
            use_type_invariant(self);
        }
        self.scale
    }
}

/// The image position of a screen position is exact: scaled back by the
/// zoom factor and moved back by the pan offset it is the screen position
/// again, with nothing rounded. The denominator is the zoom level times
/// `PIXEL_SCALE`.
pub proof fn lemma_image_position_is_exact(px: int, py: int, v: ViewState)
    ensures
        ({
            let a = image_fraction(px, py, v);
            &&& a.scale == v.zoom_level * PIXEL_SCALE
            &&& a.x * v.zoom_level * PIXEL_SCALE + v.pan_offset.0 * ZOOM_SCALE * a.scale == px
                * ZOOM_SCALE * a.scale
            &&& a.y * v.zoom_level * PIXEL_SCALE + v.pan_offset.1 * ZOOM_SCALE * a.scale == py
                * ZOOM_SCALE * a.scale
        }),
{
    let a = image_fraction(px, py, v);
    let s = v.zoom_level * PIXEL_SCALE;
    assert(a.x * v.zoom_level * PIXEL_SCALE == a.x * s) by (nonlinear_arith)
        requires
            s == v.zoom_level * PIXEL_SCALE,
    ;
    assert(a.y * v.zoom_level * PIXEL_SCALE == a.y * s) by (nonlinear_arith)
        requires
            s == v.zoom_level * PIXEL_SCALE,
    ;
    assert((px - v.pan_offset.0) * ZOOM_SCALE * s + v.pan_offset.0 * ZOOM_SCALE * s == px
        * ZOOM_SCALE * s) by (nonlinear_arith);
    assert((py - v.pan_offset.1) * ZOOM_SCALE * s + v.pan_offset.1 * ZOOM_SCALE * s == py
        * ZOOM_SCALE * s) by (nonlinear_arith);
}

/// The projection rounds once, down, and by less than a millimetre: the
/// ground distance times the size of the world in image units misses the
/// exact product by less than that size.
pub proof fn lemma_rounding_is_below_one_unit(numerator: int, scale: int)
    requires
        scale > 0,
    ensures
        ground_distance(numerator, scale) * (scale * WORLD_SIZE_PIXELS) <= numerator
            * EARTH_CIRCUMFERENCE,
        numerator * EARTH_CIRCUMFERENCE < (ground_distance(numerator, scale) + 1) * (scale
            * WORLD_SIZE_PIXELS),
{
    lemma_floor_div_bounds(numerator * EARTH_CIRCUMFERENCE, scale * WORLD_SIZE_PIXELS);
}

/// Two image positions that are at least a millimetre on the ground apart
/// have different ground distances, the larger position the larger one.
pub proof fn lemma_ground_distance_grows(lower: int, upper: int, scale: int)
    requires
        scale > 0,
        scale * WORLD_SIZE_PIXELS <= (upper - lower) * EARTH_CIRCUMFERENCE,
    ensures
        ground_distance(lower, scale) < ground_distance(upper, scale),
{
    let d = scale * WORLD_SIZE_PIXELS;
    let a = lower * EARTH_CIRCUMFERENCE;
    let b = upper * EARTH_CIRCUMFERENCE;
    lemma_floor_div_bounds(a, d);
    lemma_floor_div_bounds(b, d);
    let qa = floor_div(a, d);
    let qb = floor_div(b, d);
    assert(b - a == (upper - lower) * EARTH_CIRCUMFERENCE) by (nonlinear_arith)
        requires
            a == lower * EARTH_CIRCUMFERENCE,
            b == upper * EARTH_CIRCUMFERENCE,
    ;
    assert(qa < qb) by (nonlinear_arith)
        requires
            d > 0,
            qa * d <= a,
            b < (qb + 1) * d,
            d <= b - a,
    ;
}

/// In one view, every step to the right on the screen, however small, moves
/// the projected point east, and every step down moves it south. The
/// easting depends on the horizontal position only, the northing on the
/// vertical position only. The image position grows strictly with the screen
/// position as well.
pub proof fn lemma_transform_keeps_order(a: (i32, i32), b: (i32, i32), v: ViewState)
    requires
        v.valid(),
    ensures
        a.0 < b.0 ==> projected(a.0 as int, a.1 as int, v).0 < projected(
            b.0 as int,
            b.1 as int,
            v,
        ).0,
        a.1 < b.1 ==> projected(a.0 as int, a.1 as int, v).1 > projected(
            b.0 as int,
            b.1 as int,
            v,
        ).1,
        a.0 == b.0 ==> projected(a.0 as int, a.1 as int, v).0 == projected(
            b.0 as int,
            b.1 as int,
            v,
        ).0,
        a.1 == b.1 ==> projected(a.0 as int, a.1 as int, v).1 == projected(
            b.0 as int,
            b.1 as int,
            v,
        ).1,
        a.0 < b.0 ==> image_fraction(a.0 as int, a.1 as int, v).x < image_fraction(
            b.0 as int,
            b.1 as int,
            v,
        ).x,
        a.1 < b.1 ==> image_fraction(a.0 as int, a.1 as int, v).y < image_fraction(
            b.0 as int,
            b.1 as int,
            v,
        ).y,
{
    let scale = v.zoom_level * PIXEL_SCALE;
    assert(scale * WORLD_SIZE_PIXELS <= 422_700_000);
    if a.0 < b.0 {
        lemma_ground_distance_grows(
            (a.0 - v.pan_offset.0) * ZOOM_SCALE,
            (b.0 - v.pan_offset.0) * ZOOM_SCALE,
            scale,
        );
    }
    if a.1 < b.1 {
        lemma_ground_distance_grows(
            (a.1 - v.pan_offset.1) * ZOOM_SCALE,
            (b.1 - v.pan_offset.1) * ZOOM_SCALE,
            scale,
        );
    }
}

/// Under a valid view every screen position has an image position that can
/// be held and projected, and so has the origin of the drawing.
pub proof fn lemma_view_positions_are_representable(px: i32, py: i32, v: ViewState)
    requires
        v.valid(),
    ensures
        image_fraction(px as int, py as int, v).representable(),
        drawn_origin(v).representable(),
{
    let a = image_fraction(px as int, py as int, v);
    let o = drawn_origin(v);
    lemma_ground_distance_range(a.x, a.scale);
    lemma_ground_distance_range(a.y, a.scale);
    lemma_ground_distance_range(o.x, o.scale);
    lemma_ground_distance_range(o.y, o.scale);
}

/// Within the range of a valid view, ground distances stay far inside
/// 64 bits.
proof fn lemma_ground_distance_range(numerator: int, scale: int)
    requires
        -IMAGE_LIMIT <= numerator <= IMAGE_LIMIT,
        ZOOM_MIN * PIXEL_SCALE <= scale,
    ensures
        -48_000_000_000_000_000 <= ground_distance(numerator, scale) <= 48_000_000_000_000_000,
{
    let w = numerator * EARTH_CIRCUMFERENCE;
    let d = scale * WORLD_SIZE_PIXELS;
    lemma_floor_div_bounds(w, d);
    let q = floor_div(w, d);
    assert(-402_500_000_000_000_000_000_000 <= w <= 402_500_000_000_000_000_000_000);
    assert(d >= 8_454_000);
    assert(q <= 48_000_000_000_000_000) by (nonlinear_arith)
        requires
            q * d <= w,
            w <= 402_500_000_000_000_000_000_000,
            d >= 8_454_000,
    ;
    assert(q >= -48_000_000_000_000_000) by (nonlinear_arith)
        requires
            w < (q + 1) * d,
            w >= -402_500_000_000_000_000_000_000,
            d >= 8_454_000,
    ;
}

/// The ground distance of `numerator / scale` image pixels, in millimetres.
fn to_ground(numerator: i64, scale: i64) -> (g: i128)
    requires
        scale > 0,
    ensures
        g == ground_distance(numerator as int, scale as int),
        -400_000_000_000_000_000_000_000_000_000 <= g <= 400_000_000_000_000_000_000_000_000_000,
{
    assert(EARTH_CIRCUMFERENCE == 40_075_016_686 && WORLD_SIZE_PIXELS == 8454);
    let wide: i128 = (numerator as i128) * 40_075_016_686;
    let units: i128 = (scale as i128) * 8454;
    proof {
        lemma_floor_div_magnitude(wide as int, units as int);
    }
    match wide.checked_div_euclid(units) {
        Some(q) => q,
        None => 0,
    }
}

/// The image position with the numerators `x` and `y` at the zoom level
/// `zoom`.
fn point_in_view(x: i64, y: i64, zoom: i64) -> (a: ImagePoint)
    requires
        -IMAGE_LIMIT <= x <= IMAGE_LIMIT,
        -IMAGE_LIMIT <= y <= IMAGE_LIMIT,
        ZOOM_MIN <= zoom <= ZOOM_MAX,
    ensures
        a@ == (ImageFraction { x: x as int, y: y as int, scale: zoom * PIXEL_SCALE }),
{
    proof {
        lemma_ground_distance_range(x as int, zoom * PIXEL_SCALE);
        lemma_ground_distance_range(y as int, zoom * PIXEL_SCALE);
    }
    ImagePoint { x, y, scale: zoom * PIXEL_SCALE }
}

/// The position in the map image under the screen position `(px, py)`.
/// Only the committed pan offset counts, not the delta of a drag in progress.
pub fn pixels_to_image_coordinates(px: i32, py: i32, app_state: &MapState) -> (a: ImagePoint)
    ensures
        a@ == image_fraction(px as int, py as int, app_state@),
        a == ImagePoint::of(image_fraction(px as int, py as int, app_state@)),
{
    let v = app_state.read();
    assert(PAN_LIMIT == 1_000_000_000_000 && ZOOM_SCALE == 10 && IMAGE_LIMIT
        == 10_042_949_672_950);
    let x = (px as i64 - v.pan_offset.0) * 10;
    let y = (py as i64 - v.pan_offset.1) * 10;
    point_in_view(x, y, v.zoom_level)
}

/// Where to draw the upper left corner of the image on a surface that is
/// scaled by the zoom factor. During a drag the image follows the pointer.
pub fn image_origin(app_state: &MapState) -> (o: ImagePoint)
    ensures
        o@ == drawn_origin(app_state@),
        o == ImagePoint::of(drawn_origin(app_state@)),
{
    let v = app_state.read();
    assert(PAN_LIMIT == 1_000_000_000_000 && ZOOM_SCALE == 10 && IMAGE_LIMIT
        == 10_042_949_672_950 && DRAG_LIMIT == 4_294_967_295);
    let x = (v.pan_offset.0 + v.pan_drag_delta.0) * 10;
    let y = (v.pan_offset.1 + v.pan_drag_delta.1) * 10;
    point_in_view(x, y, v.zoom_level)
}

/// The projected point of a position in the map image, in millimetres east
/// and north of the point where the equator meets the prime meridian.
pub fn image_coordinates_to_meters(image: ImagePoint) -> (m: (i64, i64))
    ensures
        m.0 == image@.easting(),
        m.1 == image@.northing(),
{
    proof {
        use_type_invariant(&image);
    }
    assert(MAP_SHIFT_X == 6_183_002_574 && MAP_SHIFT_Y == 13_797_255_745 && ORIGIN_SHIFT
        == 20_037_508_343);
    let east: i128 = to_ground(image.x, image.scale) + 6_183_002_574 - 20_037_508_343;
    let north: i128 = 20_037_508_343 - (to_ground(image.y, image.scale) + 13_797_255_745);
    (east as i64, north as i64)
}

/// The projected point under the screen position `(px, py)`, in millimetres.
pub fn pixels_to_meters(px: i32, py: i32, app_state: &MapState) -> (m: (i64, i64))
    ensures
        m.0 == projected(px as int, py as int, app_state@).0,
        m.1 == projected(px as int, py as int, app_state@).1,
{
    image_coordinates_to_meters(pixels_to_image_coordinates(px, py, app_state))
}

} // verus!
