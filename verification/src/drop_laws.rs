//! Where a drop goes and what it does there, by the exact places of pointer
//! and windows.

use crate::exact::{
    exact_sides, exactly_holds, law_order_is_exact, law_zero_and_one_are_exact, unit,
};
use crate::geometry::{law_clamped_point_is_inside, Edges, Point, Rect};
use crate::hit_test::{
    zone_action, zone_of, zone_rect, AxisSpans, FrameMeasure, HitQuery, Ratios, ZoneEdges,
};
use crate::hit_test_laws::{
    exact_shares, exact_spans, exactly_measured, law_zone_holds_its_points,
};
use crate::measure_laws::{
    common_area, exact_overlap, exact_target, exactly_seen, is_exactly_nearest, law_nearest_target_wins,
    law_zone_is_kept_within_its_margin, margin, offers,
    squared_distance, within_margin,
};
use crate::model::{
    same_choice, Direction, DragSource, DropIntent, DropTarget, DropZone, MouseDropAction,
    WindowDropAction,
};
use crate::scalar::Scalar;
use vstd::prelude::*;
use vstd::std_specs::cmp::PartialEqSpec;

verus! {

/// A drop on an edge of a window inserts on that side, whatever is configured
/// for the center; one on the center does what is configured for it.
pub proof fn law_edges_insert_on_their_side(center: MouseDropAction)
    ensures
        zone_action(DropZone::West, center) == WindowDropAction::Insert(Direction::Left),
        zone_action(DropZone::East, center) == WindowDropAction::Insert(Direction::Right),
        zone_action(DropZone::North, center) == WindowDropAction::Insert(Direction::Up),
        zone_action(DropZone::South, center) == WindowDropAction::Insert(Direction::Down),
        zone_action(DropZone::Center, MouseDropAction::Swap) == WindowDropAction::Swap,
        zone_action(DropZone::Center, MouseDropAction::Stack) == WindowDropAction::Stack,
{
}

/// The direction of an edge zone.
pub open spec fn side(zone: DropZone, direction: Direction) -> bool {
    ||| zone == DropZone::West && direction == Direction::Left
    ||| zone == DropZone::East && direction == Direction::Right
    ||| zone == DropZone::North && direction == Direction::Up
    ||| zone == DropZone::South && direction == Direction::Down
}

/// Whatever drop is offered, its action is the override where there is one.
/// Else it inserts on the side of its edge zone, or does in the center what is
/// configured, or it moves the source itself out of an edge of its own place.
pub proof fn law_offered_drops_do_what_their_zone_says(query: HitQuery)
    requires
        query.measured(),
    ensures
        query.intent() matches Some(intent) ==> match query.scene.action_override {
            Some(action) => intent.action == action,
            None => match intent.action {
                WindowDropAction::Insert(direction) => side(intent.zone, direction),
                WindowDropAction::Swap => intent.zone == DropZone::Center && query.center
                    == MouseDropAction::Swap,
                WindowDropAction::Stack => intent.zone == DropZone::Center && query.center
                    == MouseDropAction::Stack,
                WindowDropAction::Move(direction) => {
                    &&& side(intent.zone, direction)
                    &&& query.source matches Some(source) && {
                        &&& intent.window == source.window
                        &&& intent.frame == source.origin_frame
                        &&& Some(intent.space) == source.current_space
                    }
                },
            },
        },
{
}

/// A drop that was found impossible, by window, zone and action, is not
/// offered.
pub proof fn law_rejected_drops_are_not_offered(query: HitQuery)
    requires
        query.measured(),
    ensures
        query.intent() matches Some(intent) ==> !query.unavailable.contains(
            (intent.window, intent.zone, intent.action),
        ),
{
    crate::hit_test_laws::law_offered_drop_is_available(query);
    if let Some(intent) = query.intent() {
        assert(intent.rejection() == (intent.window, intent.zone, intent.action));
    }
}

/// Two intents are the same choice exactly when both are missing, or both name
/// the same window, space and action; two targets are the same where window,
/// space and zone are.
pub proof fn law_same_choices(a: DropIntent, b: DropIntent, area: Rect, other: Rect)
    ensures
        same_choice(None, None),
        !same_choice(Some(a), None),
        !same_choice(None, Some(a)),
        same_choice(Some(a), Some(b)) <==> a.window == b.window && a.space == b.space && a.action
            == b.action,
        (DropTarget { intent: a, preview_area: area }).same_target(
            DropTarget { intent: b, preview_area: other },
        ) <==> a.window == b.window && a.space == b.space && a.zone == b.zone,
{
}

/// Equality of intents and of targets, as `==` has it, is that of choices.
pub proof fn law_equality_is_of_choices(a: DropIntent, b: DropIntent, area: Rect, other: Rect)
    ensures
        PartialEqSpec::eq_spec(&a, &b) <==> a.window == b.window && a.space == b.space && a.action
            == b.action,
        PartialEqSpec::eq_spec(
            &(DropTarget { intent: a, preview_area: area }),
            &(DropTarget { intent: b, preview_area: other }),
        ) <==> a.window == b.window && a.space == b.space && a.zone == b.zone,
{
}

/// The zone of a point by its shares: the center where no share is less than
/// the fraction, else the side with the least share, west before east before
/// north before south among equals. A point outside, or a frame without
/// extent, has none.
pub proof fn law_zones_go_by_the_least_share(
    frame: Rect,
    point: Point,
    fraction: Scalar,
    measure: FrameMeasure,
)
    requires
        exact_sides(frame, measure.edges),
        point.finite() && fraction.finite(),
        measure.ratios.left.finite() && measure.ratios.right.finite(),
        measure.ratios.top.finite() && measure.ratios.bottom.finite(),
    ensures
        ({
            let f = fraction.units();
            let (l, r) = (measure.ratios.left.units(), measure.ratios.right.units());
            let (t, b) = (measure.ratios.top.units(), measure.ratios.bottom.units());
            let zone = zone_of(frame, point, fraction, measure);
            let center = l >= f && r >= f && t >= f && b >= f;
            &&& zone is Some <==> frame.size.width.units() > 0 && frame.size.height.units() > 0
                && exactly_holds(frame, point)
            &&& zone is Some ==> {
                &&& zone == Some(DropZone::Center) <==> center
                &&& zone == Some(DropZone::West) <==> !center && l <= r && l <= t && l <= b
                &&& zone == Some(DropZone::East) <==> !center && r < l && r <= t && r <= b
                &&& zone == Some(DropZone::North) <==> !center && t < l && t < r && t <= b
                &&& zone == Some(DropZone::South) <==> !center && b < l && b < r && b < t
            }
        }),
{
    let zero = Scalar::spec_zero();
    let edges = measure.edges;
    let Ratios { left, right, top, bottom } = measure.ratios;
    law_zero_and_one_are_exact();
    law_order_is_exact(frame.size.width, zero);
    law_order_is_exact(frame.size.height, zero);
    law_order_is_exact(edges.min_x, point.x);
    law_order_is_exact(point.x, edges.max_x);
    law_order_is_exact(edges.min_y, point.y);
    law_order_is_exact(point.y, edges.max_y);
    law_order_is_exact(fraction, left);
    law_order_is_exact(fraction, right);
    law_order_is_exact(fraction, top);
    law_order_is_exact(fraction, bottom);
    law_order_is_exact(right, left);
    law_order_is_exact(top, left);
    law_order_is_exact(top, right);
    law_order_is_exact(bottom, left);
    law_order_is_exact(bottom, right);
    law_order_is_exact(bottom, top);
}

/// Of a frame whose extent is no number, a point within the sides still has a
/// zone; but no such frame counts as having extent.
pub proof fn law_extent_that_is_no_number(
    frame: Rect,
    point: Point,
    fraction: Scalar,
    measure: FrameMeasure,
)
    requires
        frame.size.width.nan() && frame.size.height.nan(),
    ensures
        zone_of(frame, point, fraction, measure) is Some <==> measure.edges.holds(point),
        !frame.positive(),
{
}

/// Each edge zone lies along its own side, as deep as the fraction and as long
/// as the frame; the center lies between them.
pub proof fn law_zones_lie_along_their_sides(
    frame: Rect,
    fraction: Scalar,
    x: AxisSpans,
    y: AxisSpans,
)
    requires
        exact_spans(frame.origin.x, frame.size.width, fraction, x),
        exact_spans(frame.origin.y, frame.size.height, fraction, y),
    ensures
        ({
            let (fx, fy) = (frame.origin.x.units(), frame.origin.y.units());
            let (fw, fh) = (frame.size.width.units(), frame.size.height.units());
            let (f, u) = (fraction.units(), unit());
            let west = zone_rect(x, y, DropZone::West);
            let east = zone_rect(x, y, DropZone::East);
            let north = zone_rect(x, y, DropZone::North);
            let south = zone_rect(x, y, DropZone::South);
            let center = zone_rect(x, y, DropZone::Center);
            &&& west.origin.x.units() == fx && west.origin.y.units() == fy
            &&& west.size.width.units() * u == fw * f && west.size.height.units() == fh
            &&& (east.origin.x.units() - fx) * u == fw * (u - f) && east.origin.y.units() == fy
            &&& east.size.width.units() * u == fw * f && east.size.height.units() == fh
            &&& north.origin.x.units() == fx && north.origin.y.units() == fy
            &&& north.size.width.units() == fw && north.size.height.units() * u == fh * f
            &&& south.origin.x.units() == fx && (south.origin.y.units() - fy) * u == fh * (u - f)
            &&& south.size.width.units() == fw && south.size.height.units() * u == fh * f
            &&& (center.origin.x.units() - fx) * u == fw * f
            &&& (center.origin.y.units() - fy) * u == fh * f
            &&& center.size.width.units() * u == fw * (u - 2 * f)
            &&& center.size.height.units() * u == fh * (u - 2 * f)
        }),
{
}

/// The sides of each zone are looked up under its own name.
pub proof fn law_zone_sides_are_their_own(zones: ZoneEdges)
    ensures
        zones.spec_of(DropZone::Center) == zones.center,
        zones.spec_of(DropZone::West) == zones.west,
        zones.spec_of(DropZone::East) == zones.east,
        zones.spec_of(DropZone::North) == zones.north,
        zones.spec_of(DropZone::South) == zones.south,
{
}

/// What a drop in `zone` does: the override where there is one, else what the
/// side of an edge zone or the setting for the center says.
pub open spec fn acts(query: HitQuery, zone: DropZone, action: WindowDropAction) -> bool {
    match query.scene.action_override {
        Some(always) => action == always,
        None => match action {
            WindowDropAction::Insert(direction) => side(zone, direction),
            WindowDropAction::Swap => zone == DropZone::Center && query.center
                == MouseDropAction::Swap,
            WindowDropAction::Stack => zone == DropZone::Center && query.center
                == MouseDropAction::Stack,
            WindowDropAction::Move(_) => false,
        },
    }
}

/// The previous intent holds the drop no longer: the first target of its window
/// is gone, or the pointer has left the zone by more than the margin, or the
/// drop there was found impossible.
pub open spec fn left_previous_zone(
    query: HitQuery,
    parts: Seq<(AxisSpans, AxisSpans)>,
) -> bool {
    query.previous matches Some(previous) ==> forall|k: int|
        0 <= k < query.scene.targets.len() && (#[trigger] query.scene.targets[k]).window
            == previous.window && (forall|j: int|
            0 <= j < k ==> (#[trigger] query.scene.targets[j]).window != previous.window) ==> {
            ||| !within_margin(zone_rect(parts[k].0, parts[k].1, previous.zone), query.point)
            ||| exists|action: WindowDropAction| #[trigger]
                acts(query, previous.zone, action) && query.unavailable.contains(
                    (previous.window, previous.zone, action),
                )
        }
}

/// `frame` has extent, and `point` lies within it.
pub open spec fn covers(frame: Rect, point: Point) -> bool {
    frame.size.width.units() > 0 && frame.size.height.units() > 0 && exactly_holds(frame, point)
}

proof fn lemma_nothing_retained(query: HitQuery, parts: Seq<(AxisSpans, AxisSpans)>)
    requires
        exactly_seen(query, parts),
        left_previous_zone(query, parts),
    ensures
        query.retained() is None,
{
    if let Some(previous) = query.previous {
        if exists|i: int| query.is_first_of(previous.window, i) {
            let i = choose|i: int| query.is_first_of(previous.window, i);
            assert(query.scene.targets[i].window == previous.window);
            law_zone_is_kept_within_its_margin(query, parts, previous, i);
            if within_margin(zone_rect(parts[i].0, parts[i].1, previous.zone), query.point) {
                let action = choose|action: WindowDropAction| #[trigger]
                    acts(query, previous.zone, action) && query.unavailable.contains(
                        (previous.window, previous.zone, action),
                    );
                assert(query.action(previous.zone) == action);
            }
        }
    }
}

proof fn lemma_zone_under(query: HitQuery, parts: Seq<(AxisSpans, AxisSpans)>, i: int)
    requires
        exactly_seen(query, parts),
        0 <= i < query.scene.targets.len(),
    ensures
        query.zone_under(i) is Some <==> covers(query.scene.targets[i].frame, query.point),
        query.zone_under(i) is Some ==> query.measure.targets[i].frame.edges.holds(query.point),
{
    let frame = query.scene.targets[i].frame;
    let measure = query.measure.targets[i].frame;
    let zero = Scalar::spec_zero();
    assert(exact_sides(frame, measure.edges));
    law_zero_and_one_are_exact();
    law_order_is_exact(frame.size.width, zero);
    law_order_is_exact(frame.size.height, zero);
    law_order_is_exact(measure.edges.min_x, query.point.x);
    law_order_is_exact(query.point.x, measure.edges.max_x);
    law_order_is_exact(measure.edges.min_y, query.point.y);
    law_order_is_exact(query.point.y, measure.edges.max_y);
}

proof fn lemma_zone_rect_holds(
    query: HitQuery,
    parts: Seq<(AxisSpans, AxisSpans)>,
    i: int,
    point: Point,
    ratios: Ratios,
)
    requires
        exactly_seen(query, parts),
        0 <= i < query.scene.targets.len(),
        point.finite(),
        Scalar::spec_zero().lt(query.fraction),
        2 * query.fraction.units() <= unit(),
        query.scene.targets[i].frame.size.width.units() > 0,
        query.scene.targets[i].frame.size.height.units() > 0,
        ({
            let frame = query.scene.targets[i].frame;
            &&& exact_shares(frame.origin.x, frame.size.width, point.x, ratios.left, ratios.right)
            &&& exact_shares(frame.origin.y, frame.size.height, point.y, ratios.top, ratios.bottom)
        }),
    ensures
        zone_of(
            query.scene.targets[i].frame,
            point,
            query.fraction,
            FrameMeasure { edges: query.measure.targets[i].frame.edges, ratios },
        ) matches Some(zone) ==> exactly_holds(zone_rect(parts[i].0, parts[i].1, zone), point),
{
    let frame = query.scene.targets[i].frame;
    let zero = Scalar::spec_zero();
    law_zero_and_one_are_exact();
    law_order_is_exact(zero, frame.size.width);
    law_order_is_exact(zero, frame.size.height);
    let measure = FrameMeasure { edges: query.measure.targets[i].frame.edges, ratios };
    assert(exactly_measured(frame, point, query.fraction, parts[i].0, parts[i].1, measure));
    law_zone_holds_its_points(frame, point, query.fraction, parts[i].0, parts[i].1, measure);
}

proof fn lemma_positive_is_exact(query: HitQuery, parts: Seq<(AxisSpans, AxisSpans)>, i: int)
    requires
        exactly_seen(query, parts),
        0 <= i < query.scene.targets.len(),
    ensures
        query.scene.targets[i].frame.positive()
            <==> query.scene.targets[i].frame.size.width.units() > 0
            && query.scene.targets[i].frame.size.height.units() > 0,
{
    let frame = query.scene.targets[i].frame;
    assert(exact_sides(frame, query.measure.targets[i].frame.edges));
    law_zero_and_one_are_exact();
    law_order_is_exact(Scalar::spec_zero(), frame.size.width);
    law_order_is_exact(Scalar::spec_zero(), frame.size.height);
}

/// The pointer is over target `i`, in `zone`.
pub open spec fn is_over(query: HitQuery, i: int, zone: DropZone) -> bool {
    zone_of(
        query.scene.targets[i].frame,
        query.point,
        query.fraction,
        query.measure.targets[i].frame,
    ) == Some(zone)
}

/// A drop in `zone` of target `i` was found impossible.
pub open spec fn impossible(query: HitQuery, i: int, zone: DropZone) -> bool {
    exists|action: WindowDropAction| #[trigger]
        acts(query, zone, action) && query.unavailable.contains(
            (query.scene.targets[i].window, zone, action),
        )
}

/// A drop under the pointer cannot be had of target `i`: the pointer is not over
/// it, or just the zone that the pointer is in was found impossible.
pub open spec fn not_to_be_had(query: HitQuery, i: int) -> bool {
    ||| !covers(query.scene.targets[i].frame, query.point)
    ||| exists|zone: DropZone| #[trigger] is_over(query, i, zone) && impossible(query, i, zone)
}

proof fn lemma_not_hit(query: HitQuery, parts: Seq<(AxisSpans, AxisSpans)>, i: int)
    requires
        exactly_seen(query, parts),
        0 <= i < query.scene.targets.len(),
        not_to_be_had(query, i),
    ensures
        !query.is_hit(i),
{
    lemma_zone_under(query, parts, i);
    if covers(query.scene.targets[i].frame, query.point) {
        let zone = choose|zone: DropZone| #[trigger]
            is_over(query, i, zone) && impossible(query, i, zone);
        let action = choose|action: WindowDropAction| #[trigger]
            acts(query, zone, action) && query.unavailable.contains(
                (query.scene.targets[i].window, zone, action),
            );
        assert(query.action(zone) == action);
        assert(query.intent_on(i, zone).rejection() == (
            query.scene.targets[i].window,
            zone,
            action,
        ));
    }
}

/// Once the previous zone no longer holds the drop, it goes to the first window
/// of the scene that the pointer is over and of which it can be had, into the
/// zone that the pointer is in. A zone that was found impossible is passed over;
/// the other zones of its window are not.
pub proof fn law_drop_goes_to_the_first_window_to_be_had(
    query: HitQuery,
    parts: Seq<(AxisSpans, AxisSpans)>,
    i: int,
    zone: DropZone,
    action: WindowDropAction,
)
    requires
        exactly_seen(query, parts),
        left_previous_zone(query, parts),
        0 <= i < query.scene.targets.len(),
        is_over(query, i, zone),
        acts(query, zone, action),
        !query.unavailable.contains((query.scene.targets[i].window, zone, action)),
        forall|j: int| 0 <= j < i ==> #[trigger] not_to_be_had(query, j),
    ensures
        query.intent() == Some(
            DropIntent {
                window: query.scene.targets[i].window,
                space: query.scene.targets[i].space,
                frame: query.scene.targets[i].frame,
                zone,
                action,
            },
        ),
{
    lemma_nothing_retained(query, parts);
    assert forall|j: int| 0 <= j < i implies !query.is_hit(j) by {
        assert(not_to_be_had(query, j));
        lemma_not_hit(query, parts, j);
    }
    lemma_zone_under(query, parts, i);
    assert(query.zone_under(i) == Some(zone));
    assert(query.action(zone) == action);
    assert(query.intent_on(i, zone).rejection() == (
        query.scene.targets[i].window,
        zone,
        action,
    ));
    assert(query.is_first_hit(i));
    let chosen = choose|k: int| query.is_first_hit(k);
    assert(query.is_first_hit(chosen));
    assert(chosen == i) by {
        if chosen < i {
            assert(!query.is_hit(chosen));
        } else if i < chosen {
            assert(!query.is_hit(i));
        }
    }
}

/// Once the pointer has left the zone that had it, a drop goes to the first
/// window of the scene that the pointer is over, into a zone that the pointer
/// is in, as long as nothing about that window was found impossible.
pub proof fn law_drop_goes_to_the_window_under_the_pointer(
    query: HitQuery,
    parts: Seq<(AxisSpans, AxisSpans)>,
    i: int,
)
    requires
        exactly_seen(query, parts),
        left_previous_zone(query, parts),
        Scalar::spec_zero().lt(query.fraction),
        2 * query.fraction.units() <= unit(),
        0 <= i < query.scene.targets.len(),
        covers(query.scene.targets[i].frame, query.point),
        forall|j: int|
            0 <= j < i ==> !covers((#[trigger] query.scene.targets[j]).frame, query.point),
        forall|k: int|
            0 <= k < query.unavailable.len() ==> (#[trigger] query.unavailable[k]).0
                != query.scene.targets[i].window,
    ensures
        query.intent() matches Some(intent) && {
            &&& intent.window == query.scene.targets[i].window
            &&& intent.space == query.scene.targets[i].space
            &&& intent.frame == query.scene.targets[i].frame
            &&& exactly_holds(zone_rect(parts[i].0, parts[i].1, intent.zone), query.point)
        },
{
    lemma_zone_under(query, parts, i);
    lemma_positive_is_exact(query, parts, i);
    assert(exact_target(
        query.scene.targets[i].frame,
        query.point,
        query.fraction,
        query.measure.targets[i],
        parts[i].0,
        parts[i].1,
    ));
    lemma_zone_rect_holds(query, parts, i, query.point, query.measure.targets[i].frame.ratios);
    let zone = query.zone_under(i)->0;
    let action = query.action(zone);
    assert forall|j: int| 0 <= j < i implies #[trigger] not_to_be_had(query, j) by {
        assert(!covers(query.scene.targets[j].frame, query.point));
    }
    assert(is_over(query, i, zone));
    assert(acts(query, zone, action));
    law_drop_goes_to_the_first_window_to_be_had(query, parts, i, zone, action);
}

/// A pointer in an edge zone of the source's own place moves the source in the
/// direction of that edge, where no window has a part of that place, no window
/// under the pointer is to be had, and just this was not found impossible.
pub proof fn law_own_edges_move_the_source(
    query: HitQuery,
    parts: Seq<(AxisSpans, AxisSpans)>,
    source: DragSource,
    zone: DropZone,
    direction: Direction,
)
    requires
        exactly_seen(query, parts),
        left_previous_zone(query, parts),
        query.source == Some(source),
        source.current_space is Some,
        query.scene.action_override is None,
        zone_of(source.origin_frame, query.point, query.fraction, query.measure.source) == Some(
            zone,
        ),
        side(zone, direction),
        !query.unavailable.contains((source.window, zone, WindowDropAction::Move(direction))),
        forall|i: int|
            #![trigger query.scene.targets[i]]
            0 <= i < query.scene.targets.len() ==> not_to_be_had(query, i) && common_area(
                source.origin_frame,
                query.scene.targets[i].frame,
            ) == 0,
    ensures
        query.intent() == Some(
            DropIntent {
                window: source.window,
                space: source.current_space->0,
                frame: source.origin_frame,
                zone,
                action: WindowDropAction::Move(direction),
            },
        ),
{
    lemma_nothing_retained(query, parts);
    assert forall|j: int| !query.is_hit(j) by {
        if query.is_target(j) {
            assert(query.scene.targets[j] == query.scene.targets[j]);
            lemma_not_hit(query, parts, j);
        }
    }
    lemma_source_is_clear(query, parts, source);
    let moved = DropIntent {
        window: source.window,
        space: source.current_space->0,
        frame: source.origin_frame,
        zone,
        action: WindowDropAction::Move(direction),
    };
    assert(moved.rejection() == (source.window, zone, WindowDropAction::Move(direction)));
}

proof fn lemma_source_is_clear(
    query: HitQuery,
    parts: Seq<(AxisSpans, AxisSpans)>,
    source: DragSource,
)
    requires
        exactly_seen(query, parts),
        query.source == Some(source),
    ensures
        query.source_is_clear() <==> forall|i: int|
            #![trigger query.scene.targets[i]]
            0 <= i < query.scene.targets.len() ==> common_area(
                source.origin_frame,
                query.scene.targets[i].frame,
            ) <= 0,
{
    law_zero_and_one_are_exact();
    let zero = Scalar::spec_zero();
    assert forall|i: int| query.is_target(i) implies (zero.lt(
        (#[trigger] query.measure.targets[i]).overlap,
    ) <==> common_area(source.origin_frame, query.scene.targets[i].frame) > 0) by {
        let overlap = query.measure.targets[i].overlap;
        assert(exact_overlap(
            source.origin_frame,
            query.scene.targets[i].frame,
            query.measure.targets[i],
        )) by {
            assert(query.scene.targets[i] == query.scene.targets[i]);
        }
        law_order_is_exact(zero, overlap);
        let (o, u) = (overlap.units(), unit());
        assert(o > 0 <==> o * u > 0) by (nonlinear_arith)
            requires
                u > 0,
        ;
    }
    if query.source_is_clear() {
        assert forall|i: int|
            #![trigger query.scene.targets[i]]
            0 <= i < query.scene.targets.len() implies common_area(
            source.origin_frame,
            query.scene.targets[i].frame,
        ) <= 0 by {
            assert(query.is_target(i));
            assert(!zero.lt(query.measure.targets[i].overlap));
        }
    }
    if forall|i: int|
        #![trigger query.scene.targets[i]]
        0 <= i < query.scene.targets.len() ==> common_area(
            source.origin_frame,
            query.scene.targets[i].frame,
        ) <= 0 {
        assert forall|i: int| query.is_target(i) implies !zero.lt(
            (#[trigger] query.measure.targets[i]).overlap,
        ) by {
            assert(common_area(source.origin_frame, query.scene.targets[i].frame) <= 0);
        }
    }
}

/// The drag has no place of its own to move from: there is no source or none in
/// a space, one action rules every zone, the pointer is in no edge zone of the
/// source's place, or a window has a part of that place.
pub open spec fn has_no_own_edge(query: HitQuery) -> bool {
    query.scene.action_override is None ==> match query.source {
        None => true,
        Some(source) => {
            let zone = zone_of(
                source.origin_frame,
                query.point,
                query.fraction,
                query.measure.source,
            );
            ||| source.current_space is None
            ||| zone is None || zone == Some(DropZone::Center)
            ||| exists|i: int|
                0 <= i < query.scene.targets.len() && common_area(
                    source.origin_frame,
                    (#[trigger] query.scene.targets[i]).frame,
                ) > 0
        },
    }
}

/// The zone of target `i` at its point nearest to the pointer.
pub open spec fn nearest_zone(query: HitQuery, i: int, zone: DropZone) -> bool {
    let measure = query.measure.targets[i];
    zone_of(
        query.scene.targets[i].frame,
        measure.frame.edges.nearest_point(query.point),
        query.fraction,
        FrameMeasure { edges: measure.frame.edges, ratios: measure.clamped },
    ) == Some(zone)
}

/// Target `j` does not come before target `i`: it has no extent, or it is
/// farther from the pointer or as far and later in the scene, or just the zone
/// at its nearest point was found impossible.
pub open spec fn comes_after(query: HitQuery, i: int, j: int) -> bool {
    let frame = query.scene.targets[j].frame;
    let here = squared_distance(query.scene.targets[i].frame, query.point);
    let there = squared_distance(frame, query.point);
    ||| frame.size.width.units() <= 0 || frame.size.height.units() <= 0
    ||| here < there || (here == there && i <= j)
    ||| exists|zone: DropZone| #[trigger] nearest_zone(query, j, zone) && impossible(query, j, zone)
}

/// A pointer under which nothing is to be had, in a drag that has no place of
/// its own to move from, drops on the window with the least squared distance,
/// the earliest among equals, into the zone at its nearest point. A window is
/// passed over where just that was found impossible.
pub proof fn law_pointer_off_all_windows_drops_on_the_nearest(
    query: HitQuery,
    parts: Seq<(AxisSpans, AxisSpans)>,
    i: int,
    zone: DropZone,
    action: WindowDropAction,
)
    requires
        exactly_seen(query, parts),
        left_previous_zone(query, parts),
        has_no_own_edge(query),
        0 <= i < query.scene.targets.len(),
        query.scene.targets[i].frame.size.width.units() > 0,
        query.scene.targets[i].frame.size.height.units() > 0,
        nearest_zone(query, i, zone),
        acts(query, zone, action),
        !query.unavailable.contains((query.scene.targets[i].window, zone, action)),
        forall|j: int| 0 <= j < query.scene.targets.len() ==> #[trigger] not_to_be_had(query, j),
        forall|j: int| 0 <= j < query.scene.targets.len() ==> #[trigger] comes_after(query, i, j),
    ensures
        query.intent() == Some(
            DropIntent {
                window: query.scene.targets[i].window,
                space: query.scene.targets[i].space,
                frame: query.scene.targets[i].frame,
                zone,
                action,
            },
        ),
{
    lemma_nothing_retained(query, parts);
    assert forall|j: int| !query.is_hit(j) by {
        if query.is_target(j) {
            assert(not_to_be_had(query, j));
            lemma_not_hit(query, parts, j);
        }
    }
    if let Some(source) = query.source {
        lemma_source_is_clear(query, parts, source);
    }
    lemma_positive_is_exact(query, parts, i);
    assert(query.action(zone) == action);
    assert(query.nearby(i) == Some(query.intent_on(i, zone)));
    assert(query.intent_on(i, zone).rejection() == (
        query.scene.targets[i].window,
        zone,
        action,
    ));
    assert(offers(query, i));
    assert forall|j: int| #[trigger] offers(query, j) implies {
        crate::measure_laws::exactly_no_farther(query, i, j)
    } by {
        lemma_positive_is_exact(query, parts, j);
        assert(comes_after(query, i, j));
        if exists|zone: DropZone| #[trigger]
            nearest_zone(query, j, zone) && impossible(query, j, zone) {
            let zone = choose|zone: DropZone| #[trigger]
                nearest_zone(query, j, zone) && impossible(query, j, zone);
            let action = choose|action: WindowDropAction| #[trigger]
                acts(query, zone, action) && query.unavailable.contains(
                    (query.scene.targets[j].window, zone, action),
                );
            assert(query.action(zone) == action);
            assert(query.intent_on(j, zone).rejection() == (
                query.scene.targets[j].window,
                zone,
                action,
            ));
        }
    }
    assert(is_exactly_nearest(query, i));
    law_nearest_target_wins(query, parts);
}

/// The zone at the point nearest to the pointer is one that holds that point.
pub proof fn law_nearest_zone_holds_the_nearest_point(
    query: HitQuery,
    parts: Seq<(AxisSpans, AxisSpans)>,
    i: int,
)
    requires
        exactly_seen(query, parts),
        Scalar::spec_zero().lt(query.fraction),
        2 * query.fraction.units() <= unit(),
        0 <= i < query.scene.targets.len(),
        query.scene.targets[i].frame.size.width.units() > 0,
        query.scene.targets[i].frame.size.height.units() > 0,
    ensures
        exists|zone: DropZone| #[trigger]
            nearest_zone(query, i, zone) && exactly_holds(
                zone_rect(parts[i].0, parts[i].1, zone),
                query.measure.targets[i].frame.edges.nearest_point(query.point),
            ),
{
    let frame = query.scene.targets[i].frame;
    let measure = query.measure.targets[i];
    let edges = measure.frame.edges;
    assert(exact_target(
        frame,
        query.point,
        query.fraction,
        measure,
        parts[i].0,
        parts[i].1,
    ));
    lemma_positive_is_exact(query, parts, i);
    law_order_is_exact(edges.min_x, edges.max_x);
    law_order_is_exact(edges.min_y, edges.max_y);
    law_clamped_point_is_inside(edges, query.point);
    let at = edges.nearest_point(query.point);
    lemma_zone_rect_holds(query, parts, i, at, measure.clamped);
    let zone = query.nearby(i)->0.zone;
    assert(query.nearby(i) is Some);
    assert(nearest_zone(query, i, zone));
}

/// Where no drop can be had at all there is none: nothing under the pointer, no
/// place of its own to move from, and no window with extent whose nearest zone
/// is possible.
pub proof fn law_nothing_to_be_had(query: HitQuery, parts: Seq<(AxisSpans, AxisSpans)>)
    requires
        exactly_seen(query, parts),
        left_previous_zone(query, parts),
        has_no_own_edge(query),
        forall|j: int| 0 <= j < query.scene.targets.len() ==> #[trigger] not_to_be_had(query, j),
        forall|j: int|
            0 <= j < query.scene.targets.len() ==> {
                let frame = (#[trigger] query.scene.targets[j]).frame;
                ||| frame.size.width.units() <= 0 || frame.size.height.units() <= 0
                ||| exists|zone: DropZone| #[trigger]
                    nearest_zone(query, j, zone) && impossible(query, j, zone)
            },
    ensures
        query.intent() is None,
{
    lemma_nothing_retained(query, parts);
    assert forall|j: int| !query.is_hit(j) by {
        if query.is_target(j) {
            assert(not_to_be_had(query, j));
            lemma_not_hit(query, parts, j);
        }
    }
    if let Some(source) = query.source {
        lemma_source_is_clear(query, parts, source);
    }
    assert forall|j: int| !query.eligible(j) by {
        if query.is_target(j) {
            lemma_positive_is_exact(query, parts, j);
            if query.scene.targets[j].frame.positive() {
                let zone = choose|zone: DropZone| #[trigger]
                    nearest_zone(query, j, zone) && impossible(query, j, zone);
                let action = choose|action: WindowDropAction| #[trigger]
                    acts(query, zone, action) && query.unavailable.contains(
                        (query.scene.targets[j].window, zone, action),
                    );
                assert(query.action(zone) == action);
                assert(query.intent_on(j, zone).rejection() == (
                    query.scene.targets[j].window,
                    zone,
                    action,
                ));
                assert(query.unavailable.len() > 0);
            }
        }
    }
}

/// As long as the pointer is no further than eight points from the zone that
/// had it, the same zone of the same window keeps the drop, with the frame that
/// the window has now, unless just that was found impossible.
pub proof fn law_zone_keeps_its_drop(
    query: HitQuery,
    parts: Seq<(AxisSpans, AxisSpans)>,
    previous: DropIntent,
    i: int,
    action: WindowDropAction,
)
    requires
        exactly_seen(query, parts),
        query.previous == Some(previous),
        0 <= i < query.scene.targets.len(),
        query.scene.targets[i].window == previous.window,
        forall|j: int|
            0 <= j < i ==> (#[trigger] query.scene.targets[j]).window != previous.window,
        within_margin(zone_rect(parts[i].0, parts[i].1, previous.zone), query.point),
        acts(query, previous.zone, action),
        !query.unavailable.contains((previous.window, previous.zone, action)),
    ensures
        margin() == 8 * unit(),
        query.intent() == Some(
            DropIntent {
                window: previous.window,
                space: previous.space,
                frame: query.scene.targets[i].frame,
                zone: previous.zone,
                action,
            },
        ),
{
    law_zone_is_kept_within_its_margin(query, parts, previous, i);
    let kept = DropIntent {
        frame: query.scene.targets[i].frame,
        action: query.action(previous.zone),
        ..previous
    };
    assert(query.action(previous.zone) == action);
    assert(kept.rejection() == (previous.window, previous.zone, action));
}

/// The nearest point of a frame is within it, is the point itself where that
/// is, and no point of the frame is nearer along either axis.
pub proof fn law_nearest_point_is_nearest(frame: Rect, edges: Edges, point: Point, other: Point)
    requires
        exact_sides(frame, edges),
        point.finite() && other.finite(),
        frame.size.width.units() >= 0 && frame.size.height.units() >= 0,
        exactly_holds(frame, other),
    ensures
        ({
            let near = edges.nearest_point(point);
            let (x, y) = (point.x.units(), point.y.units());
            &&& exactly_holds(frame, near)
            &&& exactly_holds(frame, point) ==> near == point
            &&& x <= near.x.units() <= other.x.units() || other.x.units() <= near.x.units() <= x
            &&& y <= near.y.units() <= other.y.units() || other.y.units() <= near.y.units() <= y
                || near.y.units() == y
            &&& near.x.units() == x || near.x.units() == edges.min_x.units() || near.x.units()
                == edges.max_x.units()
        }),
{
    law_order_is_exact(point.x, edges.min_x);
    law_order_is_exact(edges.max_x, point.x);
    law_order_is_exact(point.y, edges.min_y);
    law_order_is_exact(edges.max_y, point.y);
}

} // verus!
