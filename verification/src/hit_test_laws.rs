//! What holds of every hit test.

use crate::exact::{
    exact_sides, exactly_holds, exactly_inside, law_order_is_exact, law_zero_and_one_are_exact,
    unit,
};
use crate::geometry::{law_clamped_point_is_inside, Edges, Point, Rect};
use crate::hit_test::{
    zone_of, zone_rect, AxisSpans, FrameMeasure, HitQuery, Ratios, Span,
};
use crate::model::{DropIntent, DropZone, WindowDropAction};
use crate::scalar::Scalar;
use vstd::prelude::*;

verus! {

/// A drop that was found impossible is never offered.
pub proof fn law_offered_drop_is_available(query: HitQuery)
    requires
        query.measured(),
    ensures
        query.intent() matches Some(intent) ==> query.available(intent),
{
    if query.retained() is None && query.direct() is None && query.own_edge() is None {
        if exists|i: int| query.is_nearest(i) {
            let i = choose|i: int| query.is_nearest(i);
            assert(query.is_nearest(i));
            assert(query.eligible(i));
        }
    } else if query.retained() is None && query.direct() is Some {
        let i = choose|i: int| query.is_first_hit(i);
        assert(query.is_first_hit(i));
        assert(query.is_hit(i));
    }
}

/// Where the layout overrides the action, every zone of every target has it:
/// a stack layout swaps wherever the pointer is.
pub proof fn law_override_governs_every_zone(query: HitQuery, action: WindowDropAction)
    requires
        query.measured(),
        query.scene.action_override == Some(action),
    ensures
        query.intent() matches Some(intent) ==> intent.action == action,
{
}

/// Of the targets that the pointer hits the first in the order of the scene
/// gets the drop.
pub proof fn law_overlapping_targets_keep_scene_order(query: HitQuery, i: int)
    requires
        query.measured(),
        query.retained() is None,
        query.is_hit(i),
    ensures
        exists|k: int|
            0 <= k <= i && query.is_first_hit(k) && query.intent() == Some(
                query.intent_on(k, query.zone_under(k)->0),
            ),
    decreases i,
{
    if exists|j: int| 0 <= j < i && query.is_hit(j) {
        let j = choose|j: int| 0 <= j < i && query.is_hit(j);
        law_overlapping_targets_keep_scene_order(query, j);
    } else {
        assert(query.is_first_hit(i));
        let chosen = choose|k: int| query.is_first_hit(k);
        assert(query.is_first_hit(chosen));
        assert(chosen == i) by {
            if chosen < i {
                assert(!query.is_hit(chosen));
            } else if i < chosen {
                assert(!query.is_hit(i));
            }
        }
        assert(query.intent() == query.direct());
    }
}

/// The previous intent is kept, zone and all, while the pointer stays within
/// the margin of its zone and nothing makes it impossible; only its frame and
/// its action follow the scene.
pub proof fn law_zone_keeps_the_pointer(query: HitQuery, previous: DropIntent, i: int)
    requires
        query.measured(),
        query.previous == Some(previous),
        query.is_first_of(previous.window, i),
        query.measure.targets[i].zones.spec_of(previous.zone).holds(query.point),
        query.available(
            (DropIntent {
                frame: query.scene.targets[i].frame,
                action: query.action(previous.zone),
                ..previous
            }),
        ),
    ensures
        query.intent() == Some(
            (DropIntent {
                frame: query.scene.targets[i].frame,
                action: query.action(previous.zone),
                ..previous
            }),
        ),
{
    let chosen = choose|k: int| query.is_first_of(previous.window, k);
    assert(query.is_first_of(previous.window, chosen));
    assert(chosen == i);
}

/// A target is nearest when no eligible one is strictly nearer and no earlier
/// one is as near: targets at the same distance keep the order of the scene.
pub proof fn law_equidistant_targets_keep_scene_order(query: HitQuery, i: int, j: int)
    requires
        query.measured(),
        query.is_nearest(i),
        query.eligible(j),
        query.measure.targets[i].distance == query.measure.targets[j].distance,
    ensures
        i <= j,
{
}

pub proof fn lemma_nearest_exists(query: HitQuery, n: int) -> (best: int)
    requires
        0 < n <= query.scene.targets.len(),
        exists|i: int| 0 <= i < n && query.eligible(i),
    ensures
        0 <= best < n,
        query.eligible(best),
        forall|j: int| 0 <= j < n && query.eligible(j) ==> query.no_farther(best, j),
    decreases n,
{
    if n > 1 && exists|i: int| 0 <= i < n - 1 && query.eligible(i) {
        let b = lemma_nearest_exists(query, n - 1);
        if query.eligible(n - 1) && !query.no_farther(b, n - 1) {
            n - 1
        } else {
            b
        }
    } else {
        n - 1
    }
}

/// Unless something was found impossible, a pointer anywhere finds a drop as
/// soon as one target has extent: outside of all targets it is the nearest.
pub proof fn law_pointer_always_finds_a_drop(query: HitQuery, i: int)
    requires
        query.measured(),
        query.unavailable.len() == 0,
        !query.point.x.nan(),
        !query.point.y.nan(),
        query.is_target(i) && query.scene.targets[i].frame.positive(),
        forall|k: int|
            query.is_target(k) && (#[trigger] query.scene.targets[k]).frame.positive() ==> {
                let edges = query.measure.targets[k].frame.edges;
                edges.min_x.le(edges.max_x) && edges.min_y.le(edges.max_y)
            },
    ensures
        query.intent() is Some,
{
    assert(query.eligible(i));
    let best = lemma_nearest_exists(query, query.scene.targets.len() as int);
    assert(query.is_nearest(best));
    let chosen = choose|k: int| query.is_nearest(k);
    assert(query.is_nearest(chosen));
    law_clamped_point_is_inside(query.measure.targets[chosen].frame.edges, query.point);
    assert(query.scene.targets[chosen].frame.positive());
    assert(query.nearby(chosen) is Some);
}

/// A drop goes to a window of the scene, or moves the source itself.
pub proof fn law_drop_goes_to_the_scene_or_the_source(query: HitQuery)
    requires
        query.measured(),
    ensures
        query.intent() matches Some(intent) ==> {
            ||| exists|i: int|
                query.is_target(i) && (#[trigger] query.scene.targets[i]).window == intent.window
                    && query.scene.targets[i].frame == intent.frame
            ||| query.source matches Some(source) && source.window == intent.window
                && intent.action is Move
        },
{
    if let Some(intent) = query.intent() {
        if query.retained() is Some {
            let i = choose|i: int| query.is_first_of(query.previous->0.window, i);
            assert(query.is_first_of(query.previous->0.window, i));
            assert(query.is_target(i) && query.scene.targets[i].window == intent.window);
        } else if query.direct() is Some {
            let i = choose|i: int| query.is_first_hit(i);
            assert(query.is_first_hit(i));
            assert(query.is_target(i) && query.scene.targets[i].window == intent.window);
        } else if query.own_edge() is None {
            let i = choose|i: int| query.is_nearest(i);
            assert(query.is_nearest(i));
            assert(query.is_target(i) && query.scene.targets[i].window == intent.window);
        }
    }
}

/// A point within a frame that has extent always lies in a zone, and a point
/// outside in none.
pub proof fn law_zones_cover_the_frame(
    frame: Rect,
    point: Point,
    fraction: Scalar,
    measure: FrameMeasure,
)
    requires
        frame.positive(),
    ensures
        zone_of(frame, point, fraction, measure) is Some <==> measure.edges.holds(point),
{
}

/// Among numbers the chosen side has the least share, and no side that comes
/// before it in the order west, east, north, south has as little.
pub proof fn law_nearest_side_has_the_least_share(ratios: Ratios)
    requires
        !ratios.left.nan(),
        !ratios.right.nan(),
        !ratios.top.nan(),
        !ratios.bottom.nan(),
    ensures
        ratios.nearest_side() != DropZone::Center,
        ratios.share(ratios.nearest_side()).le(ratios.left),
        ratios.share(ratios.nearest_side()).le(ratios.right),
        ratios.share(ratios.nearest_side()).le(ratios.top),
        ratios.share(ratios.nearest_side()).le(ratios.bottom),
        ratios.nearest_side() == DropZone::East ==> ratios.right.lt(ratios.left),
        ratios.nearest_side() == DropZone::North ==> ratios.top.lt(ratios.left) && ratios.top.lt(
            ratios.right,
        ),
        ratios.nearest_side() == DropZone::South ==> ratios.bottom.lt(ratios.left)
            && ratios.bottom.lt(ratios.right) && ratios.bottom.lt(ratios.top),
{
}

/// `low` and `high` are exactly the shares of an axis on either side of `at`.
pub open spec fn exact_shares(
    begin: Scalar,
    extent: Scalar,
    at: Scalar,
    low: Scalar,
    high: Scalar,
) -> bool {
    &&& low.finite() && high.finite()
    &&& low.units() * extent.units() == (at.units() - begin.units()) * unit()
    &&& high.units() == unit() - low.units()
}

/// `spans` parts an axis exactly at `fraction` of its extent from either end.
pub open spec fn exact_spans(
    begin: Scalar,
    extent: Scalar,
    fraction: Scalar,
    spans: AxisSpans,
) -> bool {
    &&& span_is_finite(spans.low) && span_is_finite(spans.middle) && span_is_finite(spans.high)
        && span_is_finite(spans.full)
    &&& spans.low.begin.units() == begin.units()
    &&& spans.low.extent.units() * unit() == extent.units() * fraction.units()
    &&& (spans.middle.begin.units() - begin.units()) * unit() == extent.units() * fraction.units()
    &&& spans.middle.extent.units() * unit() == extent.units() * (unit() - 2 * fraction.units())
    &&& (spans.high.begin.units() - begin.units()) * unit() == extent.units() * (unit()
        - fraction.units())
    &&& spans.high.extent.units() * unit() == extent.units() * fraction.units()
    &&& spans.full.begin.units() == begin.units()
    &&& spans.full.extent.units() == extent.units()
}

pub open spec fn span_is_finite(span: Span) -> bool {
    span.begin.finite() && span.extent.finite()
}

/// The parts `x` and `y` of the axes and the sides and shares in `measure` are
/// exactly those of `frame`, `point` and `fraction`.
pub open spec fn exactly_measured(
    frame: Rect,
    point: Point,
    fraction: Scalar,
    x: AxisSpans,
    y: AxisSpans,
    measure: FrameMeasure,
) -> bool {
    let ratios = measure.ratios;
    &&& point.finite() && fraction.finite()
    &&& exact_sides(frame, measure.edges)
    &&& exact_shares(frame.origin.x, frame.size.width, point.x, ratios.left, ratios.right)
    &&& exact_shares(frame.origin.y, frame.size.height, point.y, ratios.top, ratios.bottom)
    &&& exact_spans(frame.origin.x, frame.size.width, fraction, x)
    &&& exact_spans(frame.origin.y, frame.size.height, fraction, y)
}

pub proof fn lemma_cancel(a: int, b: int, u: int)
    by (nonlinear_arith)
    requires
        u > 0,
    ensures
        a * u <= b * u ==> a <= b,
        a * u == b * u ==> a == b,
{
}

/// Where the parts of one axis lie, and on which side of their bounds a point
/// with the given shares does.
proof fn lemma_axis(
    begin: Scalar,
    extent: Scalar,
    fraction: Scalar,
    at: Scalar,
    low: Scalar,
    high: Scalar,
    spans: AxisSpans,
)
    requires
        exact_spans(begin, extent, fraction, spans),
        exact_shares(begin, extent, at, low, high),
        extent.units() > 0,
        0 < fraction.units(),
        2 * fraction.units() <= unit(),
        unit() > 0,
    ensures
        spans.middle.begin.units() == begin.units() + spans.low.extent.units(),
        spans.middle.begin.units() + spans.middle.extent.units() == spans.high.begin.units(),
        spans.high.begin.units() + spans.high.extent.units() == begin.units() + extent.units(),
        spans.low.extent.units() >= 0,
        spans.middle.extent.units() >= 0,
        spans.high.extent.units() >= 0,
        fraction.units() <= low.units() ==> spans.middle.begin.units() <= at.units(),
        low.units() <= fraction.units() ==> at.units() <= spans.middle.begin.units(),
        fraction.units() <= high.units() ==> at.units() <= spans.high.begin.units(),
        high.units() <= fraction.units() ==> spans.high.begin.units() <= at.units(),
{
    let (b, w, f, p, u) = (begin.units(), extent.units(), fraction.units(), at.units(), unit());
    let (l, h) = (low.units(), high.units());
    let (le, mb, me) = (
        spans.low.extent.units(),
        spans.middle.begin.units(),
        spans.middle.extent.units(),
    );
    let (hb, he) = (spans.high.begin.units(), spans.high.extent.units());
    lemma_cancel(mb - b, le, u);
    lemma_cancel(he, le, u);
    assert((mb - b + me) * u == (hb - b) * u) by (nonlinear_arith)
        requires
            (mb - b) * u == w * f,
            me * u == w * (u - 2 * f),
            (hb - b) * u == w * (u - f),
    ;
    lemma_cancel(mb - b + me, hb - b, u);
    assert((hb - b + he) * u == w * u) by (nonlinear_arith)
        requires
            he * u == w * f,
            (hb - b) * u == w * (u - f),
    ;
    lemma_cancel(hb - b + he, w, u);
    assert(0 * u <= le * u && 0 * u <= me * u) by (nonlinear_arith)
        requires
            le * u == w * f,
            me * u == w * (u - 2 * f),
            w > 0,
            f > 0,
            2 * f <= u,
    ;
    lemma_cancel(0, le, u);
    lemma_cancel(0, me, u);
    if f <= l {
        assert((mb - b) * u <= (p - b) * u) by (nonlinear_arith)
            requires
                (mb - b) * u == w * f,
                l * w == (p - b) * u,
                f <= l,
                w > 0,
        ;
        lemma_cancel(mb - b, p - b, u);
    }
    if l <= f {
        assert((p - b) * u <= (mb - b) * u) by (nonlinear_arith)
            requires
                (mb - b) * u == w * f,
                l * w == (p - b) * u,
                l <= f,
                w > 0,
        ;
        lemma_cancel(p - b, mb - b, u);
    }
    if f <= h {
        assert((p - b) * u <= (hb - b) * u) by (nonlinear_arith)
            requires
                (hb - b) * u == w * (u - f),
                l * w == (p - b) * u,
                f <= u - l,
                w > 0,
        ;
        lemma_cancel(p - b, hb - b, u);
    }
    if h <= f {
        assert((hb - b) * u <= (p - b) * u) by (nonlinear_arith)
            requires
                (hb - b) * u == w * (u - f),
                l * w == (p - b) * u,
                u - l <= f,
                w > 0,
        ;
        lemma_cancel(hb - b, p - b, u);
    }
}

/// The frame of the zone that a point is classified into holds the point and
/// lies within the whole frame, where all is measured exactly and an edge zone
/// takes at most half of the frame.
pub proof fn law_zone_holds_its_points(
    frame: Rect,
    point: Point,
    fraction: Scalar,
    x: AxisSpans,
    y: AxisSpans,
    measure: FrameMeasure,
)
    requires
        exactly_measured(frame, point, fraction, x, y, measure),
        frame.positive(),
        Scalar::spec_zero().lt(fraction),
        2 * fraction.units() <= unit(),
    ensures
        zone_of(frame, point, fraction, measure) matches Some(zone) ==> {
            let rect = zone_rect(x, y, zone);
            &&& exactly_holds(rect, point)
            &&& exactly_inside(rect, frame)
            &&& forall|sides: Edges| #[trigger] exact_sides(rect, sides) ==> sides.holds(point)
        },
{
    let ratios = measure.ratios;
    let edges = measure.edges;
    let zero = Scalar::spec_zero();
    law_zero_and_one_are_exact();
    law_order_is_exact(zero, fraction);
    law_order_is_exact(zero, frame.size.width);
    law_order_is_exact(zero, frame.size.height);
    lemma_axis(
        frame.origin.x,
        frame.size.width,
        fraction,
        point.x,
        ratios.left,
        ratios.right,
        x,
    );
    lemma_axis(
        frame.origin.y,
        frame.size.height,
        fraction,
        point.y,
        ratios.top,
        ratios.bottom,
        y,
    );
    law_order_is_exact(edges.min_x, point.x);
    law_order_is_exact(point.x, edges.max_x);
    law_order_is_exact(edges.min_y, point.y);
    law_order_is_exact(point.y, edges.max_y);
    law_order_is_exact(fraction, ratios.left);
    law_order_is_exact(fraction, ratios.right);
    law_order_is_exact(fraction, ratios.top);
    law_order_is_exact(fraction, ratios.bottom);
    law_nearest_side_has_the_least_share(ratios);
    let nearest = ratios.share(ratios.nearest_side());
    law_order_is_exact(nearest, ratios.left);
    law_order_is_exact(nearest, ratios.right);
    law_order_is_exact(nearest, ratios.top);
    law_order_is_exact(nearest, ratios.bottom);
    if let Some(zone) = zone_of(frame, point, fraction, measure) {
        let rect = zone_rect(x, y, zone);
        assert(exactly_holds(rect, point));
        assert(exactly_inside(rect, frame));
        assert forall|sides: Edges| #[trigger] exact_sides(rect, sides) implies sides.holds(
            point,
        ) by {
            law_order_is_exact(sides.min_x, point.x);
            law_order_is_exact(point.x, sides.max_x);
            law_order_is_exact(sides.min_y, point.y);
            law_order_is_exact(point.y, sides.max_y);
        }
    }
}

} // verus!
