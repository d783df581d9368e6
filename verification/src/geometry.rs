//! Points, sizes and frames, and the decisions that compare their coordinates.

use crate::scalar::Scalar;
use vstd::prelude::*;

verus! {

#[derive(Clone, Copy, Debug, PartialEq, Eq, Structural)]
pub struct Point {
    pub x: Scalar,
    pub y: Scalar,
}

#[derive(Clone, Copy, Debug, PartialEq, Eq, Structural)]
pub struct Size {
    pub width: Scalar,
    pub height: Scalar,
}

#[derive(Clone, Copy, Debug, PartialEq, Eq, Structural)]
pub struct Rect {
    pub origin: Point,
    pub size: Size,
}

/// The four sides of an upright rectangle, as coordinates.
#[derive(Clone, Copy, Debug, PartialEq, Eq, Structural)]
pub struct Edges {
    pub min_x: Scalar,
    pub max_x: Scalar,
    pub min_y: Scalar,
    pub max_y: Scalar,
}

impl Point {
    /// The origin of the coordinate system.
    pub open spec fn spec_zero() -> Point {
        Point { x: Scalar::spec_zero(), y: Scalar::spec_zero() }
    }

    /// The origin of the coordinate system.
    #[verifier::when_used_as_spec(spec_zero)]
    pub fn zero() -> (r: Point)
        ensures
            r == Point::spec_zero(),
    {
        Point { x: Scalar::zero(), y: Scalar::zero() }
    }

    /// Whether both coordinates are the number zero.
    pub open spec fn at_zero(self) -> bool {
        self.x.same_number(Scalar::spec_zero()) && self.y.same_number(Scalar::spec_zero())
    }

    /// Whether both coordinates are the number zero.
    pub fn is_zero(self) -> (r: bool)
        ensures
            r == self.at_zero(),
    {
        self.x.equals(Scalar::zero()) && self.y.equals(Scalar::zero())
    }
}

impl Rect {
    /// Whether the four coordinates of two frames are equal numbers.
    pub open spec fn same_frame(self, other: Rect) -> bool {
        self.origin.x.same_number(other.origin.x) && self.origin.y.same_number(other.origin.y)
            && self.size.width.same_number(other.size.width) && self.size.height.same_number(
            other.size.height,
        )
    }

    /// Whether both dimensions are greater than zero.
    pub open spec fn positive(self) -> bool {
        Scalar::spec_zero().lt(self.size.width) && Scalar::spec_zero().lt(self.size.height)
    }

    /// Whether the four coordinates of two frames are equal numbers.
    pub fn equals(self, other: Rect) -> (r: bool)
        ensures
            r == self.same_frame(other),
    {
        self.origin.x.equals(other.origin.x) && self.origin.y.equals(other.origin.y)
            && self.size.width.equals(other.size.width) && self.size.height.equals(
            other.size.height,
        )
    }

    /// Whether both dimensions are greater than zero.
    pub fn is_positive(self) -> (r: bool)
        ensures
            r == self.positive(),
    {
        Scalar::zero().less_than(self.size.width) && Scalar::zero().less_than(self.size.height)
    }
}

impl Edges {
    /// Whether `point` lies within the sides, the sides included.
    pub open spec fn holds(self, point: Point) -> bool {
        self.min_x.le(point.x) && point.x.le(self.max_x) && self.min_y.le(point.y) && point.y.le(
            self.max_y,
        )
    }

    /// `point`, moved along each axis to the nearest side where it lies
    /// outside.
    pub open spec fn nearest_point(self, point: Point) -> Point {
        Point {
            x: clamped(point.x, self.min_x, self.max_x),
            y: clamped(point.y, self.min_y, self.max_y),
        }
    }

    /// Whether `point` lies within the sides, the sides included.
    pub fn contains(self, point: Point) -> (r: bool)
        ensures
            r == self.holds(point),
    {
        self.min_x.at_most(point.x) && point.x.at_most(self.max_x) && self.min_y.at_most(point.y)
            && point.y.at_most(self.max_y)
    }

    /// `point`, moved along each axis to the nearest side where it lies
    /// outside.
    pub fn clamp_point(self, point: Point) -> (r: Point)
        ensures
            r == self.nearest_point(point),
    {
        Point {
            x: clamp_scalar(point.x, self.min_x, self.max_x),
            y: clamp_scalar(point.y, self.min_y, self.max_y),
        }
    }
}

/// `value`, raised to `low` where it is less and lowered to `high` where it is
/// greater.
pub open spec fn clamped(value: Scalar, low: Scalar, high: Scalar) -> Scalar {
    if value.lt(low) {
        low
    } else if high.lt(value) {
        high
    } else {
        value
    }
}

fn clamp_scalar(value: Scalar, low: Scalar, high: Scalar) -> (r: Scalar)
    ensures
        r == clamped(value, low, high),
{
    if value.less_than(low) {
        low
    } else if high.less_than(value) {
        high
    } else {
        value
    }
}

/// Which sides of a frame follow the pointer when it is resized by a press
/// that is nearer to them than to the opposite ones.
#[derive(Clone, Copy, Debug, PartialEq, Eq, Structural)]
pub struct ResizeSides {
    pub left: bool,
    pub top: bool,
}

/// The sides on the anchor's side of the frame's center.
pub open spec fn sides_toward(anchor: Point, center: Point) -> ResizeSides {
    ResizeSides { left: anchor.x.lt(center.x), top: anchor.y.lt(center.y) }
}

/// The sides on the anchor's side of the frame's center: the left one for an
/// anchor left of it, the top one for an anchor above it.
pub fn resize_sides(anchor: Point, center: Point) -> (r: ResizeSides)
    ensures
        r == sides_toward(anchor, center),
{
    ResizeSides { left: anchor.x.less_than(center.x), top: anchor.y.less_than(center.y) }
}

/// What an axis of a frame comes to when one of its two sides follows the
/// pointer.
#[derive(Clone, Copy, Debug, PartialEq, Eq, Structural)]
pub struct AxisMeasure {
    /// The extent less the pointer's motion.
    pub low_extent: Scalar,
    /// The extent plus the pointer's motion.
    pub high_extent: Scalar,
    /// The high side less `low_extent`.
    pub low_side: Scalar,
    /// The high side less one.
    pub low_limit: Scalar,
}

/// What a frame comes to when it is resized.
#[derive(Clone, Copy, Debug, PartialEq, Eq, Structural)]
pub struct ResizeMeasure {
    /// The center of the frame.
    pub center: Point,
    pub x: AxisMeasure,
    pub y: AxisMeasure,
}

impl AxisMeasure {
    /// Where the axis begins and how far it extends once the low side, or else
    /// the high one, has followed the pointer. It extends at least by one.
    pub open spec fn pulled(self, begin: Scalar, low: bool) -> (Scalar, Scalar) {
        if !low {
            (begin, self.high_extent.at_least(Scalar::spec_one()))
        } else if Scalar::spec_one().lt(self.low_extent) {
            (self.low_side, self.low_extent)
        } else {
            (self.low_limit, Scalar::spec_one())
        }
    }

    fn pull(self, begin: Scalar, low: bool) -> (r: (Scalar, Scalar))
        ensures
            r == self.pulled(begin, low),
    {
        if !low {
            (begin, self.high_extent.raised_to(Scalar::one()))
        } else if Scalar::one().less_than(self.low_extent) {
            (self.low_side, self.low_extent)
        } else {
            (self.low_limit, Scalar::one())
        }
    }
}

/// `frame`, resized by a press at `anchor`.
pub open spec fn resized_frame(frame: Rect, anchor: Point, measure: ResizeMeasure) -> Rect {
    let sides = sides_toward(anchor, measure.center);
    let x = measure.x.pulled(frame.origin.x, sides.left);
    let y = measure.y.pulled(frame.origin.y, sides.top);
    Rect { origin: Point { x: x.0, y: y.0 }, size: Size { width: x.1, height: y.1 } }
}

/// Moves the edges on the anchor's side of the frame's center; the opposite
/// edges stay put.
pub fn resize_from_anchor(frame: Rect, anchor: Point, measure: ResizeMeasure) -> (r: Rect)
    ensures
        r == resized_frame(frame, anchor, measure),
{
    let sides = resize_sides(anchor, measure.center);
    let x = measure.x.pull(frame.origin.x, sides.left);
    let y = measure.y.pull(frame.origin.y, sides.top);
    Rect { origin: Point { x: x.0, y: y.0 }, size: Size { width: x.1, height: y.1 } }
}

/// A resized frame extends at least by one along each axis. A press that is
/// nearer to the right or the bottom leaves the opposite edge where it is. One
/// that is nearer to the left or the top moves that edge: to where the opposite
/// edge less the new extent is, and no further than one short of the opposite
/// edge.
pub proof fn law_resizing_keeps_extent_and_far_edges(
    frame: Rect,
    anchor: Point,
    measure: ResizeMeasure,
)
    ensures
        Scalar::spec_one().le(resized_frame(frame, anchor, measure).size.width),
        Scalar::spec_one().le(resized_frame(frame, anchor, measure).size.height),
        measure.center.x.le(anchor.x) ==> {
            let r = resized_frame(frame, anchor, measure);
            &&& r.origin.x == frame.origin.x
            &&& r.size.width == measure.x.high_extent.at_least(Scalar::spec_one())
        },
        measure.center.y.le(anchor.y) ==> {
            let r = resized_frame(frame, anchor, measure);
            &&& r.origin.y == frame.origin.y
            &&& r.size.height == measure.y.high_extent.at_least(Scalar::spec_one())
        },
        anchor.x.lt(measure.center.x) ==> {
            let r = resized_frame(frame, anchor, measure);
            ||| r.origin.x == measure.x.low_side && r.size.width == measure.x.low_extent
                && Scalar::spec_one().lt(measure.x.low_extent)
            ||| r.origin.x == measure.x.low_limit && r.size.width == Scalar::spec_one()
                && !Scalar::spec_one().lt(measure.x.low_extent)
        },
        anchor.y.lt(measure.center.y) ==> {
            let r = resized_frame(frame, anchor, measure);
            ||| r.origin.y == measure.y.low_side && r.size.height == measure.y.low_extent
                && Scalar::spec_one().lt(measure.y.low_extent)
            ||| r.origin.y == measure.y.low_limit && r.size.height == Scalar::spec_one()
                && !Scalar::spec_one().lt(measure.y.low_extent)
        },
{
}

/// A point clamped to ordered sides lies within them.
pub proof fn law_clamped_point_is_inside(edges: Edges, point: Point)
    requires
        edges.min_x.le(edges.max_x),
        edges.min_y.le(edges.max_y),
        !point.x.nan(),
        !point.y.nan(),
    ensures
        edges.holds(edges.nearest_point(point)),
{
}

/// A press is toward the left side exactly when it is less than the center along
/// the horizontal axis, and toward the top likewise; so never where one of the
/// two is no number.
pub proof fn law_sides_lie_toward_the_press(anchor: Point, center: Point)
    ensures
        sides_toward(anchor, center).left <==> anchor.x.lt(center.x),
        sides_toward(anchor, center).top <==> anchor.y.lt(center.y),
        anchor.x.nan() || center.x.nan() ==> !sides_toward(anchor, center).left,
        anchor.y.nan() || center.y.nan() ==> !sides_toward(anchor, center).top,
{
}

/// A coordinate that is no number lies within no sides, and is left as it is by
/// clamping; other coordinates go to the nearer side where they lie outside.
pub proof fn law_clamping_coordinates(edges: Edges, point: Point)
    ensures
        point.x.nan() || point.y.nan() ==> !edges.holds(point),
        point.x.nan() ==> edges.nearest_point(point).x == point.x,
        point.y.nan() ==> edges.nearest_point(point).y == point.y,
        point.x.lt(edges.min_x) ==> edges.nearest_point(point).x == edges.min_x,
        point.y.lt(edges.min_y) ==> edges.nearest_point(point).y == edges.min_y,
        edges.min_x.le(point.x) && edges.max_x.lt(point.x) ==> edges.nearest_point(point).x
            == edges.max_x,
        edges.min_y.le(point.y) && edges.max_y.lt(point.y) ==> edges.nearest_point(point).y
            == edges.max_y,
{
}

/// Clamping leaves a point that lies within the sides where it is.
pub proof fn law_inside_point_is_kept(edges: Edges, point: Point)
    requires
        edges.holds(point),
    ensures
        edges.nearest_point(point) == point,
{
}

} // verus!
