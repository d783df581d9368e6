//! What holds of a hit test whose measures are exact.

use crate::exact::{
    exact_sides, law_order_is_exact, law_zero_and_one_are_exact, unit,
};
use crate::geometry::{law_clamped_point_is_inside, Edges, Point, Rect};
use crate::hit_test::{
    preview_rect, zone_rect, AxisSpans, HitQuery, TargetMeasure, ZoneEdges, HYSTERESIS_POINTS,
    PREVIEW_INSET_POINTS,
};
use crate::hit_test_laws::{exact_shares, exact_spans, lemma_cancel, lemma_nearest_exists};
use crate::model::{DropIntent, DropZone};
use crate::scalar::{Scalar, SIGN_BIT};
use vstd::prelude::*;

verus! {

/// How far `at` lies outside of an axis, zero within it.
pub open spec fn gap(begin: Scalar, extent: Scalar, at: Scalar) -> int {
    if at.units() < begin.units() {
        begin.units() - at.units()
    } else if begin.units() + extent.units() < at.units() {
        at.units() - (begin.units() + extent.units())
    } else {
        0
    }
}

/// The squared distance of `point` from `frame`.
pub open spec fn squared_distance(frame: Rect, point: Point) -> int {
    let dx = gap(frame.origin.x, frame.size.width, point.x);
    let dy = gap(frame.origin.y, frame.size.height, point.y);
    dx * dx + dy * dy
}

/// The stretch that two axes have in common.
pub open spec fn common(begin: Scalar, extent: Scalar, other: Scalar, reach: Scalar) -> int {
    let (low, high) = (begin.units(), begin.units() + extent.units());
    let (other_low, other_high) = (other.units(), other.units() + reach.units());
    let from = if low < other_low {
        other_low
    } else {
        low
    };
    let to = if high < other_high {
        high
    } else {
        other_high
    };
    if from < to {
        to - from
    } else {
        0
    }
}

/// The area that two frames have in common.
pub open spec fn common_area(a: Rect, b: Rect) -> int {
    common(a.origin.x, a.size.width, b.origin.x, b.size.width) * common(
        a.origin.y,
        a.size.height,
        b.origin.y,
        b.size.height,
    )
}

/// The margin within which a zone keeps the pointer.
pub open spec fn margin() -> int {
    HYSTERESIS_POINTS * unit()
}

/// `point` lies within `rect` or no further from its sides than the margin.
pub open spec fn within_margin(rect: Rect, point: Point) -> bool {
    &&& rect.origin.x.units() - margin() <= point.x.units() <= rect.origin.x.units()
        + rect.size.width.units() + margin()
    &&& rect.origin.y.units() - margin() <= point.y.units() <= rect.origin.y.units()
        + rect.size.height.units() + margin()
}

/// `edges` are exactly the sides of `rect`, widened by the margin.
pub open spec fn widened_sides(rect: Rect, edges: Edges) -> bool {
    &&& edges.min_x.finite() && edges.max_x.finite() && edges.min_y.finite()
        && edges.max_y.finite()
    &&& edges.min_x.units() == rect.origin.x.units() - margin()
    &&& edges.max_x.units() == rect.origin.x.units() + rect.size.width.units() + margin()
    &&& edges.min_y.units() == rect.origin.y.units() - margin()
    &&& edges.max_y.units() == rect.origin.y.units() + rect.size.height.units() + margin()
}

/// `zones` are exactly the widened sides of the zones that the parts `x` and
/// `y` make up.
pub open spec fn exact_zones(x: AxisSpans, y: AxisSpans, zones: ZoneEdges) -> bool {
    forall|zone: DropZone| widened_sides(zone_rect(x, y, zone), #[trigger] zones.spec_of(zone))
}

/// A target was measured exactly, its axes having the parts `x` and `y`.
pub open spec fn exact_target(
    frame: Rect,
    point: Point,
    fraction: Scalar,
    measure: TargetMeasure,
    x: AxisSpans,
    y: AxisSpans,
) -> bool {
    let at = measure.frame.edges.nearest_point(point);
    let (ratios, clamped) = (measure.frame.ratios, measure.clamped);
    &&& exact_sides(frame, measure.frame.edges)
    &&& exact_spans(frame.origin.x, frame.size.width, fraction, x)
    &&& exact_spans(frame.origin.y, frame.size.height, fraction, y)
    &&& exact_zones(x, y, measure.zones)
    &&& measure.distance.finite() && measure.distance.bits < SIGN_BIT
    &&& measure.distance.units() * unit() == squared_distance(frame, point)
    &&& frame.positive() ==> {
        &&& exact_shares(frame.origin.x, frame.size.width, point.x, ratios.left, ratios.right)
        &&& exact_shares(frame.origin.y, frame.size.height, point.y, ratios.top, ratios.bottom)
        &&& exact_shares(frame.origin.x, frame.size.width, at.x, clamped.left, clamped.right)
        &&& exact_shares(frame.origin.y, frame.size.height, at.y, clamped.top, clamped.bottom)
    }
}

/// The area that a target has in common with the source's original frame was
/// measured exactly.
pub open spec fn exact_overlap(origin: Rect, frame: Rect, measure: TargetMeasure) -> bool {
    measure.overlap.finite() && measure.overlap.units() * unit() == common_area(origin, frame)
}

/// Everything in the scene was measured exactly. `parts` holds the parts of
/// each target's axes.
pub open spec fn exactly_seen(query: HitQuery, parts: Seq<(AxisSpans, AxisSpans)>) -> bool {
    &&& query.measured()
    &&& parts.len() == query.scene.targets.len()
    &&& query.point.finite() && query.fraction.finite()
    &&& forall|i: int|
        query.is_target(i) ==> {
            &&& exact_target(
                (#[trigger] query.scene.targets[i]).frame,
                query.point,
                query.fraction,
                query.measure.targets[i],
                parts[i].0,
                parts[i].1,
            )
            &&& query.source matches Some(source) ==> exact_overlap(
                source.origin_frame,
                query.scene.targets[i].frame,
                query.measure.targets[i],
            )
        }
}

/// Target `i` has extent, and a drop at its point nearest to the pointer is
/// available.
pub open spec fn offers(query: HitQuery, i: int) -> bool {
    query.is_target(i) && query.scene.targets[i].frame.positive() && query.nearby(i) is Some
        && query.available(query.nearby(i)->0)
}

/// Target `i` is nearer to the pointer than target `j`, or as near and not
/// after it.
pub open spec fn exactly_no_farther(query: HitQuery, i: int, j: int) -> bool {
    let a = squared_distance(query.scene.targets[i].frame, query.point);
    let b = squared_distance(query.scene.targets[j].frame, query.point);
    a < b || (a == b && i <= j)
}

/// Of the targets that offer a drop, `i` is the nearest to the pointer, the
/// earliest among equals.
pub open spec fn is_exactly_nearest(query: HitQuery, i: int) -> bool {
    offers(query, i) && forall|j: int|
        #[trigger] offers(query, j) ==> exactly_no_farther(query, i, j)
}

proof fn lemma_exact_eligibility(
    query: HitQuery,
    parts: Seq<(AxisSpans, AxisSpans)>,
    i: int,
)
    requires
        exactly_seen(query, parts),
    ensures
        query.eligible(i) <==> offers(query, i),
{
    if query.is_target(i) && query.scene.targets[i].frame.positive() {
        let frame = query.scene.targets[i].frame;
        let edges = query.measure.targets[i].frame.edges;
        assert(exact_sides(frame, edges));
        law_zero_and_one_are_exact();
        law_order_is_exact(Scalar::spec_zero(), frame.size.width);
        law_order_is_exact(Scalar::spec_zero(), frame.size.height);
        law_order_is_exact(edges.min_x, edges.max_x);
        law_order_is_exact(edges.min_y, edges.max_y);
        law_clamped_point_is_inside(edges, query.point);
    }
}

proof fn lemma_exact_order(
    query: HitQuery,
    parts: Seq<(AxisSpans, AxisSpans)>,
    i: int,
    j: int,
)
    requires
        exactly_seen(query, parts),
        query.is_target(i),
        query.is_target(j),
    ensures
        query.no_farther(i, j) <==> exactly_no_farther(query, i, j),
{
    let a = query.measure.targets[i].distance;
    let b = query.measure.targets[j].distance;
    assert(a.units() * unit() == squared_distance(query.scene.targets[i].frame, query.point));
    assert(b.units() * unit() == squared_distance(query.scene.targets[j].frame, query.point));
    law_zero_and_one_are_exact();
    law_order_is_exact(a, b);
    lemma_cancel(a.units(), b.units(), unit());
    lemma_cancel(b.units(), a.units(), unit());
}

/// Away from all targets the nearest one wins: the drop goes to the target
/// with the least squared distance among those that offer one, to the earliest
/// among equals, and there is a drop as soon as one target offers it.
pub proof fn law_nearest_target_wins(query: HitQuery, parts: Seq<(AxisSpans, AxisSpans)>)
    requires
        exactly_seen(query, parts),
    ensures
        query.nearest() is Some <==> exists|i: int| #[trigger] offers(query, i),
        query.nearest() is Some ==> exists|i: int| #[trigger] is_exactly_nearest(query, i),
        forall|i: int| #[trigger]
            is_exactly_nearest(query, i) ==> query.nearest() == query.nearby(i),
        query.retained() is None && query.direct() is None && query.own_edge() is None
            ==> query.intent() == query.nearest(),
{
    assert forall|i: int| #[trigger] is_exactly_nearest(query, i) <==> query.is_nearest(i) by {
        lemma_exact_eligibility(query, parts, i);
        assert forall|j: int| #[trigger] query.eligible(j) <==> offers(query, j) by {
            lemma_exact_eligibility(query, parts, j);
        }
        if query.is_target(i) {
            assert forall|j: int| query.is_target(j) implies (#[trigger] query.no_farther(i, j)
                <==> exactly_no_farther(query, i, j)) by {
                lemma_exact_order(query, parts, i, j);
            }
            assert forall|j: int| #[trigger] offers(query, j) implies (query.no_farther(i, j)
                <==> exactly_no_farther(query, i, j)) by {
                assert(query.is_target(j));
            }
            if is_exactly_nearest(query, i) {
                assert forall|j: int| query.eligible(j) implies query.no_farther(i, j) by {
                    assert(offers(query, j));
                }
                assert(query.is_nearest(i));
            }
            if query.is_nearest(i) {
                assert forall|j: int| #[trigger] offers(query, j) implies exactly_no_farther(
                    query,
                    i,
                    j,
                ) by {
                    assert(query.eligible(j));
                    assert(query.no_farther(i, j));
                }
                assert(is_exactly_nearest(query, i));
            }
        }
    }
    assert forall|i: int, k: int| query.is_nearest(i) && query.is_nearest(k) implies i == k by {
        assert(query.no_farther(i, k));
        assert(query.no_farther(k, i));
    }
    if exists|i: int| #[trigger] offers(query, i) {
        let i = choose|i: int| #[trigger] offers(query, i);
        lemma_exact_eligibility(query, parts, i);
        assert(query.eligible(i));
        let best = lemma_nearest_exists(query, query.scene.targets.len() as int);
        assert(query.is_nearest(best));
        assert(is_exactly_nearest(query, best));
    }
    assert forall|i: int| #[trigger] is_exactly_nearest(query, i) implies query.nearest()
        == query.nearby(i) by {
        assert(query.is_nearest(i));
        let chosen = choose|k: int| query.is_nearest(k);
        assert(query.is_nearest(chosen));
    }
    if query.nearest() is Some {
        let chosen = choose|k: int| query.is_nearest(k);
        assert(query.is_nearest(chosen));
        assert(is_exactly_nearest(query, chosen));
        assert(offers(query, chosen));
    }
}

/// A zone keeps the pointer that it has exactly as long as that has left it by
/// no more than the margin and the drop is available. `i` is the target that
/// the previous intent was on.
pub proof fn law_zone_is_kept_within_its_margin(
    query: HitQuery,
    parts: Seq<(AxisSpans, AxisSpans)>,
    previous: DropIntent,
    i: int,
)
    requires
        exactly_seen(query, parts),
        query.previous == Some(previous),
        query.is_first_of(previous.window, i),
    ensures
        ({
            let rect = zone_rect(parts[i].0, parts[i].1, previous.zone);
            let kept = DropIntent {
                frame: query.scene.targets[i].frame,
                action: query.action(previous.zone),
                ..previous
            };
            if within_margin(rect, query.point) && query.available(kept) {
                query.retained() == Some(kept) && query.intent() == Some(kept)
            } else {
                query.retained() is None
            }
        }),
{
    let chosen = choose|k: int| query.is_first_of(previous.window, k);
    assert(query.is_first_of(previous.window, chosen));
    assert(chosen == i);
    assert(exact_target(
        query.scene.targets[i].frame,
        query.point,
        query.fraction,
        query.measure.targets[i],
        parts[i].0,
        parts[i].1,
    ));
    let sides = query.measure.targets[i].zones.spec_of(previous.zone);
    assert(widened_sides(zone_rect(parts[i].0, parts[i].1, previous.zone), sides));
    law_order_is_exact(sides.min_x, query.point.x);
    law_order_is_exact(query.point.x, sides.max_x);
    law_order_is_exact(sides.min_y, query.point.y);
    law_order_is_exact(query.point.y, sides.max_y);
}

/// The source's own place is offered only while no target covers any part of
/// its original frame.
pub proof fn law_own_moves_need_a_clear_tile(query: HitQuery, parts: Seq<(AxisSpans, AxisSpans)>)
    requires
        exactly_seen(query, parts),
        query.source is Some,
    ensures
        query.own_edge() is Some ==> forall|i: int|
            query.is_target(i) ==> common_area(
                query.source->0.origin_frame,
                (#[trigger] query.scene.targets[i]).frame,
            ) == 0,
        query.source_is_clear() <==> forall|i: int|
            query.is_target(i) ==> common_area(
                query.source->0.origin_frame,
                (#[trigger] query.scene.targets[i]).frame,
            ) == 0,
{
    let origin = query.source->0.origin_frame;
    let zero = Scalar::spec_zero();
    law_zero_and_one_are_exact();
    assert forall|i: int| query.is_target(i) implies (zero.lt(
        (#[trigger] query.measure.targets[i]).overlap,
    ) <==> common_area(origin, query.scene.targets[i].frame) != 0) by {
        let overlap = query.measure.targets[i].overlap;
        let frame = query.scene.targets[i].frame;
        assert(exact_overlap(origin, frame, query.measure.targets[i]));
        law_order_is_exact(zero, overlap);
        let across = common(origin.origin.x, origin.size.width, frame.origin.x, frame.size.width);
        let down = common(origin.origin.y, origin.size.height, frame.origin.y, frame.size.height);
        assert(across * down >= 0) by (nonlinear_arith)
            requires
                across >= 0,
                down >= 0,
        ;
        lemma_cancel(overlap.units(), 0, unit());
        lemma_cancel(0, overlap.units(), unit());
    }
    if query.source_is_clear() {
        assert forall|i: int| query.is_target(i) implies common_area(
            origin,
            (#[trigger] query.scene.targets[i]).frame,
        ) == 0 by {
            assert(!zero.lt(query.measure.targets[i].overlap));
        }
    }
    if forall|i: int|
        query.is_target(i) ==> common_area(origin, (#[trigger] query.scene.targets[i]).frame)
            == 0 {
        assert forall|i: int| query.is_target(i) implies !zero.lt(
            (#[trigger] query.measure.targets[i]).overlap,
        ) by {
            assert(common_area(origin, query.scene.targets[i].frame) == 0);
        }
    }
}

/// `inset` is exactly `area`, drawn in on every side.
pub open spec fn exact_inset(area: Rect, inset: Rect) -> bool {
    &&& inset.finite()
    &&& inset.origin.x.units() == area.origin.x.units() + PREVIEW_INSET_POINTS * unit()
    &&& inset.origin.y.units() == area.origin.y.units() + PREVIEW_INSET_POINTS * unit()
    &&& inset.size.width.units() == area.size.width.units() - 2 * PREVIEW_INSET_POINTS * unit()
    &&& inset.size.height.units() == area.size.height.units() - 2 * PREVIEW_INSET_POINTS * unit()
}

/// A preview begins four points inside of its area and is smaller by eight
/// along each axis, down to no extent.
pub proof fn law_previews_are_drawn_in(area: Rect, inset: Rect)
    requires
        exact_inset(area, inset),
    ensures
        ({
            let preview = preview_rect(inset);
            let width = area.size.width.units() - 8 * unit();
            let height = area.size.height.units() - 8 * unit();
            &&& preview.origin.x.units() == area.origin.x.units() + 4 * unit()
            &&& preview.origin.y.units() == area.origin.y.units() + 4 * unit()
            &&& preview.size.width.units() == (if width < 0 {
                0
            } else {
                width
            })
            &&& preview.size.height.units() == (if height < 0 {
                0
            } else {
                height
            })
        }),
{
    law_zero_and_one_are_exact();
    law_order_is_exact(Scalar::spec_zero(), inset.size.width);
    law_order_is_exact(Scalar::spec_zero(), inset.size.height);
}

} // verus!
