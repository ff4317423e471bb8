//! Points, rectangles and the mapping from display space into a bitmap.

use vstd::prelude::*;
use vstd::arithmetic::div_mod::{lemma_fundamental_div_mod, lemma_fundamental_div_mod_converse};

verus! {

/// A position in display space, as the pointer source reports it. Either
/// coordinate may be negative on a desktop that extends left of or above the
/// primary monitor.
#[derive(Clone, Copy, Debug, PartialEq, Eq, Structural)]
pub struct ScreenPoint {
    pub x: i32,
    pub y: i32,
}

impl Default for ScreenPoint {
    fn default() -> (p: ScreenPoint)
        ensures
            p == (ScreenPoint { x: 0, y: 0 }),
    {
        ScreenPoint { x: 0, y: 0 }
    }
}

impl ScreenPoint {
    /// The point that a pointer query stands for: the position that it
    /// reported, or the origin where it reported none.
    pub fn from_reported(position: Option<(i32, i32)>) -> (point: ScreenPoint)
        ensures
            point == match position {
                Some((x, y)) => ScreenPoint { x, y },
                None => ScreenPoint { x: 0, y: 0 },
            },
    {
        match position {
            Some((x, y)) => ScreenPoint { x, y },
            None => ScreenPoint { x: 0, y: 0 },
        }
    }
}

/// A position inside a captured bitmap, counted from its top-left pixel.
#[derive(Clone, Copy, Debug, PartialEq, Eq, Structural)]
pub struct ImagePoint {
    pub x: u32,
    pub y: u32,
}

impl Default for ImagePoint {
    fn default() -> (p: ImagePoint)
        ensures
            p == (ImagePoint { x: 0, y: 0 }),
    {
        ImagePoint { x: 0, y: 0 }
    }
}

impl ImagePoint {
    /// The point names a pixel of a bitmap of the given size.
    pub open spec fn within(self, size: (u32, u32)) -> bool {
        self.x < size.0 && self.y < size.1
    }
}

/// An axis-aligned region of a bitmap, held by two of its corners. A
/// rectangle is canonical when `top_left` is nowhere right of or below
/// `bottom_right`; the direction in which it was dragged leaves no trace.
#[derive(Clone, Copy, Debug, PartialEq, Eq, Structural)]
pub struct Rectangle {
    pub top_left: ImagePoint,
    pub bottom_right: ImagePoint,
}

impl Rectangle {
    /// The rectangle is in canonical form.
    pub open spec fn wf(self) -> bool {
        self.top_left.x <= self.bottom_right.x && self.top_left.y <= self.bottom_right.y
    }

    /// Both corners name pixels of a bitmap of the given size.
    pub open spec fn within(self, size: (u32, u32)) -> bool {
        self.top_left.within(size) && self.bottom_right.within(size)
    }

    /// The distance between the left and the right edge.
    pub open spec fn spec_width(self) -> int {
        self.bottom_right.x - self.top_left.x
    }

    /// The distance between the top and the bottom edge.
    pub open spec fn spec_height(self) -> int {
        self.bottom_right.y - self.top_left.y
    }

    /// The rectangle spans no pixels: its width or its height is zero.
    pub open spec fn spec_is_empty(self) -> bool {
        self.spec_width() == 0 || self.spec_height() == 0
    }

    /// The distance between the left and the right edge.
    pub fn width(&self) -> (w: u32)
        requires
            self.wf(),
        ensures
            w == self.spec_width(),
    {
        self.bottom_right.x - self.top_left.x
    }

    /// The distance between the top and the bottom edge.
    pub fn height(&self) -> (h: u32)
        requires
            self.wf(),
        ensures
            h == self.spec_height(),
    {
        self.bottom_right.y - self.top_left.y
    }

    /// Whether the rectangle spans no pixels.
    pub fn is_empty(&self) -> (empty: bool)
        requires
            self.wf(),
        ensures
            empty == self.spec_is_empty(),
    {
        self.bottom_right.x == self.top_left.x || self.bottom_right.y == self.top_left.y
    }
}

/// The ratio of device pixels to logical pixels of a monitor, held as a
/// fraction so that 1.25 is `5 / 4` and 1.5 is `3 / 2`. Every value is a
/// positive ratio.
#[derive(Clone, Copy, Debug, PartialEq, Eq, Structural)]
pub struct ScaleFactor {
    numerator: u32,
    denominator: u32,
}

impl ScaleFactor {
    #[verifier::type_invariant]
    spec fn inv(self) -> bool {
        self.numerator > 0 && self.denominator > 0
    }

    /// The number of device pixels that make up `spec_denominator` logical
    /// pixels.
    pub closed spec fn spec_numerator(self) -> u32 {
        self.numerator
    }

    /// The number of logical pixels that `spec_numerator` device pixels
    /// make up.
    pub closed spec fn spec_denominator(self) -> u32 {
        self.denominator
    }

    /// What holds of every scale factor that code can hold: it is a
    /// positive ratio.
    pub open spec fn wf(self) -> bool {
        self.spec_numerator() > 0 && self.spec_denominator() > 0
    }

    /// The scale factors are the same where their two numbers are.
    pub proof fn lemma_same_numbers(self, other: ScaleFactor)
        requires
            self.spec_numerator() == other.spec_numerator(),
            self.spec_denominator() == other.spec_denominator(),
        ensures
            self == other,
    {
    }

    /// The ratio `numerator / denominator`, or `None` unless both are positive.
    pub fn new(numerator: u32, denominator: u32) -> (scale: Option<ScaleFactor>)
        ensures
            scale is Some <==> numerator > 0 && denominator > 0,
            scale is Some ==> {
                &&& scale->0.spec_numerator() == numerator
                &&& scale->0.spec_denominator() == denominator
                &&& scale->0.wf()
            },
    {
        if numerator > 0 && denominator > 0 {
            Some(ScaleFactor { numerator, denominator })
        } else {
            None
        }
    }

    /// The scale of a monitor whose device pixels are its logical pixels.
    pub fn identity() -> (scale: ScaleFactor)
        ensures
            scale.spec_numerator() == 1,
            scale.spec_denominator() == 1,
            scale.wf(),
    {
        ScaleFactor { numerator: 1, denominator: 1 }
    }

    /// The upper number of the ratio.
    pub fn numerator(&self) -> (numerator: u32)
        ensures
            numerator == self.spec_numerator(),
            self.wf(),
    {
        proof {
            use_type_invariant(self);
        }
        self.numerator
    }

    /// The lower number of the ratio.
    pub fn denominator(&self) -> (denominator: u32)
        ensures
            denominator == self.spec_denominator(),
            self.wf(),
    {
        proof {
            use_type_invariant(self);
        }
        self.denominator
    }
}

/// `value` divided by `scale`, rounded to the nearest integer, halves away
/// from zero.
pub open spec fn scaled(value: int, scale: ScaleFactor) -> int {
    let n = value * scale.spec_denominator();
    let d = scale.spec_numerator() as int;
    if n >= 0 {
        (2 * n + d) / (2 * d)
    } else {
        -((2 * (-n) + d) / (2 * d))
    }
}

/// `value` folded into `0 .. extent`: the remainder that is never negative.
pub open spec fn wrapped(value: int, extent: int) -> int {
    value % extent
}

/// A point in logical pixels, folded into a bitmap of the given size.
pub open spec fn folded(point: ScreenPoint, size: (u32, u32)) -> ImagePoint {
    ImagePoint {
        x: wrapped(point.x as int, size.0 as int) as u32,
        y: wrapped(point.y as int, size.1 as int) as u32,
    }
}

/// Where a display-space point falls in a bitmap of the given size once it
/// has been divided by the monitor's scale and folded into the bitmap.
pub open spec fn normalized(point: ScreenPoint, size: (u32, u32), scale: ScaleFactor) -> ImagePoint {
    ImagePoint {
        x: wrapped(scaled(point.x as int, scale), size.0 as int) as u32,
        y: wrapped(scaled(point.y as int, scale), size.1 as int) as u32,
    }
}

/// The smaller of two coordinates.
pub open spec fn min_of(a: u32, b: u32) -> u32 {
    if a <= b {
        a
    } else {
        b
    }
}

/// The larger of two coordinates.
pub open spec fn max_of(a: u32, b: u32) -> u32 {
    if a <= b {
        b
    } else {
        a
    }
}

/// The corner that is left of and above both points.
pub open spec fn top_left_of(point1: ImagePoint, point2: ImagePoint) -> ImagePoint {
    ImagePoint { x: min_of(point1.x, point2.x), y: min_of(point1.y, point2.y) }
}

/// The corner that is right of and below both points.
pub open spec fn bottom_right_of(point1: ImagePoint, point2: ImagePoint) -> ImagePoint {
    ImagePoint { x: max_of(point1.x, point2.x), y: max_of(point1.y, point2.y) }
}

/// The canonical rectangle that has the two points as opposite corners.
pub open spec fn canonical(first: ImagePoint, second: ImagePoint) -> Rectangle {
    Rectangle { top_left: top_left_of(first, second), bottom_right: bottom_right_of(first, second) }
}

proof fn lemma_wrapped_in_range(value: int, extent: int)
    requires
        extent > 0,
    ensures
        0 <= wrapped(value, extent) < extent,
{
    vstd::arithmetic::div_mod::lemma_mod_bound(value, extent);
}

/// The remainder of a negative number, from the remainder of its magnitude.
proof fn lemma_wrapped_negative(magnitude: int, extent: int)
    requires
        magnitude >= 0,
        extent > 0,
    ensures
        wrapped(-magnitude, extent) == if magnitude % extent == 0 {
            0
        } else {
            extent - magnitude % extent
        },
{
    lemma_fundamental_div_mod(magnitude, extent);
    let q = magnitude / extent;
    let r = magnitude % extent;
    vstd::arithmetic::div_mod::lemma_mod_pos_bound(magnitude, extent);
    if r == 0 {
        assert(-magnitude == (-q) * extent + 0) by (nonlinear_arith)
            requires
                magnitude == extent * q + r,
                r == 0,
        ;
        lemma_fundamental_div_mod_converse(-magnitude, extent, -q, 0);
    } else {
        assert(-magnitude == (-q - 1) * extent + (extent - r)) by (nonlinear_arith)
            requires
                magnitude == extent * q + r,
        ;
        lemma_fundamental_div_mod_converse(-magnitude, extent, -q - 1, extent - r);
    }
}

/// Folds one coordinate into `0 .. extent`.
fn wrap_axis(value: i64, extent: u32) -> (folded: u32)
    requires
        extent > 0,
    ensures
        folded == wrapped(value as int, extent as int),
        folded < extent,
{
    proof {
        lemma_wrapped_in_range(value as int, extent as int);
    }
    if value >= 0 {
        let folded: u64 = (value as u64) % (extent as u64);
        folded as u32
    } else {
        let magnitude: u64 = if value == i64::MIN {
            9223372036854775808u64
        } else {
            (-value) as u64
        };
        let rest: u64 = magnitude % (extent as u64);
        proof {
            lemma_wrapped_negative(magnitude as int, extent as int);
        }
        if rest == 0 {
            0
        } else {
            (extent as u64 - rest) as u32
        }
    }
}

/// Divides one coordinate by the scale, rounding halves away from zero.
fn scale_axis(value: i32, scale: ScaleFactor) -> (logical: i64)
    ensures
        logical == scaled(value as int, scale),
{
    proof {
        use_type_invariant(scale);
    }
    let d: u128 = scale.numerator as u128;
    if value >= 0 {
        assert(0 <= (value as int) * (scale.denominator as int) <= 0x7fff_ffff * 0xffff_ffff)
            by (nonlinear_arith)
            requires
                0 <= value <= 0x7fff_ffff,
                0 <= scale.denominator <= 0xffff_ffff,
        ;
        let n: u128 = (value as u128) * (scale.denominator as u128);
        let q: u128 = (2 * n + d) / (2 * d);
        assert(q <= n) by (nonlinear_arith)
            requires
                q == (2 * n + d) / (2 * d),
                d >= 1,
                n >= 0,
        ;
        q as i64
    } else {
        let magnitude: u128 = (-(value as i64)) as u128;
        assert(0 <= (magnitude as int) * (scale.denominator as int) <= 0x8000_0000 * 0xffff_ffff)
            by (nonlinear_arith)
            requires
                0 <= magnitude <= 0x8000_0000,
                0 <= scale.denominator <= 0xffff_ffff,
        ;
        let n: u128 = magnitude * (scale.denominator as u128);
        assert(n == -((value as int) * (scale.denominator as int))) by (nonlinear_arith)
            requires
                n == (magnitude as int) * (scale.denominator as int),
                magnitude == -(value as int),
        ;
        let q: u128 = (2 * n + d) / (2 * d);
        assert(q <= n) by (nonlinear_arith)
            requires
                q == (2 * n + d) / (2 * d),
                d >= 1,
                n >= 0,
        ;
        -(q as i64)
    }
}

/// `value`, or the nearest number that an `i32` holds.
pub open spec fn clamped(value: int) -> int {
    if value < i32::MIN {
        i32::MIN as int
    } else if value > i32::MAX {
        i32::MAX as int
    } else {
        value
    }
}

/// A point in device pixels, in logical pixels: each coordinate divided by
/// the scale and rounded, and held at the end of the range of `i32` where
/// the quotient lies beyond it.
pub open spec fn logical(point: ScreenPoint, scale: ScaleFactor) -> ScreenPoint {
    ScreenPoint {
        x: clamped(scaled(point.x as int, scale)) as i32,
        y: clamped(scaled(point.y as int, scale)) as i32,
    }
}

fn clamp_axis(value: i64) -> (held: i32)
    ensures
        held == clamped(value as int),
{
    if value < i32::MIN as i64 {
        i32::MIN
    } else if value > i32::MAX as i64 {
        i32::MAX
    } else {
        value as i32
    }
}

/// Brings a pointer position from device pixels into logical pixels.
pub fn logical_position(point: ScreenPoint, scale_factor: ScaleFactor) -> (position: ScreenPoint)
    ensures
        position == logical(point, scale_factor),
{
    ScreenPoint {
        x: clamp_axis(scale_axis(point.x, scale_factor)),
        y: clamp_axis(scale_axis(point.y, scale_factor)),
    }
}

/// Maps a point that is already in logical pixels into a bitmap: each
/// coordinate is folded into the bitmap's extent, so a point left of or above
/// the origin lands inside it.
pub fn get_image_coords(point: ScreenPoint, image_size: (u32, u32)) -> (coords: ImagePoint)
    requires
        image_size.0 > 0,
        image_size.1 > 0,
    ensures
        coords == folded(point, image_size),
        coords.x == wrapped(point.x as int, image_size.0 as int),
        coords.y == wrapped(point.y as int, image_size.1 as int),
        coords.within(image_size),
{
    ImagePoint {
        x: wrap_axis(point.x as i64, image_size.0),
        y: wrap_axis(point.y as i64, image_size.1),
    }
}

/// Maps a display-space point into a bitmap: divides by the monitor's scale
/// factor, then folds each coordinate into the bitmap's extent.
pub fn normalize(point: ScreenPoint, bitmap_size: (u32, u32), scale_factor: ScaleFactor) -> (coords:
    ImagePoint)
    requires
        bitmap_size.0 > 0,
        bitmap_size.1 > 0,
    ensures
        coords == normalized(point, bitmap_size, scale_factor),
        coords.x == wrapped(scaled(point.x as int, scale_factor), bitmap_size.0 as int),
        coords.y == wrapped(scaled(point.y as int, scale_factor), bitmap_size.1 as int),
        coords.within(bitmap_size),
{
    ImagePoint {
        x: wrap_axis(scale_axis(point.x, scale_factor), bitmap_size.0),
        y: wrap_axis(scale_axis(point.y, scale_factor), bitmap_size.1),
    }
}

/// The smaller of each coordinate of two points.
pub fn get_top_left(point1: ImagePoint, point2: ImagePoint) -> (corner: ImagePoint)
    ensures
        corner == top_left_of(point1, point2),
{
    ImagePoint {
        x: if point1.x <= point2.x {
            point1.x
        } else {
            point2.x
        },
        y: if point1.y <= point2.y {
            point1.y
        } else {
            point2.y
        },
    }
}

/// The larger of each coordinate of two points.
pub fn get_bottom_right(point1: ImagePoint, point2: ImagePoint) -> (corner: ImagePoint)
    ensures
        corner == bottom_right_of(point1, point2),
{
    ImagePoint {
        x: if point1.x <= point2.x {
            point2.x
        } else {
            point1.x
        },
        y: if point1.y <= point2.y {
            point2.y
        } else {
            point1.y
        },
    }
}

/// The rectangle spanned by two corners, whichever way they were dragged.
pub fn canonical_rect(first: ImagePoint, second: ImagePoint) -> (rect: Rectangle)
    ensures
        rect == canonical(first, second),
        rect.wf(),
{
    Rectangle { top_left: get_top_left(first, second), bottom_right: get_bottom_right(first, second) }
}

/// A rectangle does not depend on the order of its corners, and is canonical.
pub proof fn lemma_canonical_is_order_independent(a: ImagePoint, b: ImagePoint)
    ensures
        canonical(a, b) == canonical(b, a),
        canonical(a, b).wf(),
{
}

/// The rectangle between two pixels of a bitmap lies in that bitmap.
pub proof fn lemma_canonical_stays_within(a: ImagePoint, b: ImagePoint, size: (u32, u32))
    requires
        a.within(size),
        b.within(size),
    ensures
        canonical(a, b).within(size),
{
}

/// A rectangle drawn from a point to itself has no area.
pub proof fn lemma_canonical_of_one_point(p: ImagePoint)
    ensures
        canonical(p, p) == (Rectangle { top_left: p, bottom_right: p }),
        canonical(p, p).spec_width() == 0,
        canonical(p, p).spec_height() == 0,
        canonical(p, p).spec_is_empty(),
{
}

/// A scale of one to one leaves a coordinate as it is.
pub proof fn lemma_unit_scale_keeps_value(value: int, scale: ScaleFactor)
    requires
        scale.wf(),
        scale.spec_numerator() == scale.spec_denominator(),
    ensures
        scaled(value, scale) == value,
{
    let d = scale.spec_numerator() as int;
    let magnitude = if value >= 0 {
        value
    } else {
        -value
    };
    let n = magnitude * d;
    assert(n >= 0) by (nonlinear_arith)
        requires
            n == magnitude * d,
            magnitude >= 0,
            d > 0,
    ;
    assert(2 * n + d == d * (2 * magnitude + 1) && 2 * d == d * 2) by (nonlinear_arith)
        requires
            n == magnitude * d,
    ;
    vstd::arithmetic::div_mod::lemma_div_multiples_vanish_quotient(d, 2 * magnitude + 1, 2);
    assert((2 * n + d) / (2 * d) == magnitude);
    if value >= 0 {
        assert(value * scale.denominator == n);
    } else {
        assert(-(value * scale.denominator) == n) by (nonlinear_arith)
            requires
                n == magnitude * d,
                magnitude == -value,
                d == scale.denominator,
        ;
        if n == 0 {
            assert(magnitude == 0) by (nonlinear_arith)
                requires
                    n == magnitude * d,
                    n == 0,
                    d > 0,
            ;
        }
    }
}

/// On a monitor whose scale is one to one, to normalize a point is to fold
/// it into the bitmap.
pub proof fn lemma_normalized_at_unit_scale(point: ScreenPoint, size: (u32, u32), scale: ScaleFactor)
    requires
        scale.wf(),
        scale.spec_numerator() == scale.spec_denominator(),
    ensures
        normalized(point, size, scale) == folded(point, size),
{
    lemma_unit_scale_keeps_value(point.x as int, scale);
    lemma_unit_scale_keeps_value(point.y as int, scale);
}

/// Where the logical position needed no holding back, to normalize a point
/// is to bring it into logical pixels and to fold that into the bitmap.
pub proof fn lemma_normalized_is_folded_logical(point: ScreenPoint, size: (u32, u32), scale: ScaleFactor)
    requires
        i32::MIN <= scaled(point.x as int, scale) <= i32::MAX,
        i32::MIN <= scaled(point.y as int, scale) <= i32::MAX,
    ensures
        normalized(point, size, scale) == folded(logical(point, scale), size),
{
}

/// A scale of at least one never takes a coordinate further from zero, so
/// that the logical position of a point is the quotient itself.
pub proof fn lemma_scaled_shrinks(value: int, scale: ScaleFactor)
    requires
        scale.wf(),
        scale.spec_denominator() <= scale.spec_numerator(),
    ensures
        value >= 0 ==> 0 <= scaled(value, scale) <= value,
        value < 0 ==> value <= scaled(value, scale) <= 0,
        i32::MIN <= value <= i32::MAX ==> clamped(scaled(value, scale)) == scaled(value, scale),
{
    let d = scale.spec_numerator() as int;
    let m = scale.spec_denominator() as int;
    let magnitude = if value >= 0 {
        value
    } else {
        -value
    };
    let n = magnitude * m;
    assert(0 <= n <= magnitude * d) by (nonlinear_arith)
        requires
            n == magnitude * m,
            0 <= magnitude,
            0 < m <= d,
    ;
    assert(2 * n + d <= (2 * d) * magnitude + d) by (nonlinear_arith)
        requires
            n <= magnitude * d,
    ;
    vstd::arithmetic::div_mod::lemma_div_pos_is_pos(2 * n + d, 2 * d);
    vstd::arithmetic::div_mod::lemma_div_is_ordered(2 * n + d, (2 * d) * magnitude + d, 2 * d);
    vstd::arithmetic::div_mod::lemma_fundamental_div_mod_converse(
        (2 * d) * magnitude + d,
        2 * d,
        magnitude,
        d,
    );
    if value >= 0 {
        assert(value * scale.denominator == n);
    } else {
        assert(-(value * scale.denominator) == n) by (nonlinear_arith)
            requires
                n == magnitude * m,
                magnitude == -value,
                m == scale.denominator,
        ;
        if n == 0 {
            assert(magnitude == 0) by (nonlinear_arith)
                requires
                    n == magnitude * m,
                    n == 0,
                    m > 0,
            ;
        }
    }
}

/// Wherever the point lies and whatever the scale, the normalized point
/// names a pixel of the bitmap.
pub proof fn lemma_normalized_is_within(point: ScreenPoint, size: (u32, u32), scale: ScaleFactor)
    requires
        size.0 > 0,
        size.1 > 0,
    ensures
        normalized(point, size, scale).within(size),
        normalized(point, size, scale).x == wrapped(scaled(point.x as int, scale), size.0 as int),
        normalized(point, size, scale).y == wrapped(scaled(point.y as int, scale), size.1 as int),
{
    lemma_wrapped_in_range(scaled(point.x as int, scale), size.0 as int);
    lemma_wrapped_in_range(scaled(point.y as int, scale), size.1 as int);
}

/// A coordinate that is already inside the extent is left where it is.
pub proof fn lemma_wrapped_keeps_inside(value: int, extent: int)
    requires
        0 <= value < extent,
    ensures
        wrapped(value, extent) == value,
{
    vstd::arithmetic::div_mod::lemma_small_mod(value as nat, extent as nat);
}

} // verus!
