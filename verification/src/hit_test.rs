//! Where in a scene a pointer would drop the dragged window.
//!
//! Distances, ratios and edges are measured by the caller; the choice among
//! them is made here.

use crate::geometry::{Edges, Point, Rect, Size};
use crate::ids::WindowId;
use crate::model::{
    Direction, DragScene, DragSceneTarget, DragSource, DropIntent, DropZone, MouseDropAction,
    Rejected, SceneView, WindowDropAction,
};
use crate::scalar::Scalar;
use vstd::prelude::*;

verus! {

/// How far the pointer may leave a zone that still keeps it, in points.
pub const HYSTERESIS_POINTS: u32 = 8;

/// How far a preview is drawn in on every side, in points.
pub const PREVIEW_INSET_POINTS: u32 = 4;

/// How far into a frame a point lies from each side, as shares of the frame's
/// width and height.
#[derive(Clone, Copy, Debug, PartialEq, Eq, Structural)]
pub struct Ratios {
    pub left: Scalar,
    pub right: Scalar,
    pub top: Scalar,
    pub bottom: Scalar,
}

/// A frame as seen from a point: its sides, and the point's shares of it.
#[derive(Clone, Copy, Debug, PartialEq, Eq, Structural)]
pub struct FrameMeasure {
    pub edges: Edges,
    pub ratios: Ratios,
}

/// The sides of each zone of a frame, widened by [`HYSTERESIS_POINTS`], within
/// which a zone keeps the pointer that it has.
#[derive(Clone, Copy, Debug, PartialEq, Eq, Structural)]
pub struct ZoneEdges {
    pub center: Edges,
    pub west: Edges,
    pub east: Edges,
    pub north: Edges,
    pub south: Edges,
}

/// A stretch of an axis.
#[derive(Clone, Copy, Debug, PartialEq, Eq, Structural)]
pub struct Span {
    pub begin: Scalar,
    pub extent: Scalar,
}

/// An axis of a frame, parted into the zones at its two ends and what is
/// between them.
#[derive(Clone, Copy, Debug, PartialEq, Eq, Structural)]
pub struct AxisSpans {
    pub low: Span,
    pub middle: Span,
    pub high: Span,
    /// The whole axis.
    pub full: Span,
}

/// A scene target as seen from the pointer.
#[derive(Clone, Copy, Debug, PartialEq, Eq, Structural)]
pub struct TargetMeasure {
    /// The target's frame, from the pointer.
    pub frame: FrameMeasure,
    /// The shares of the frame at its point nearest to the pointer.
    pub clamped: Ratios,
    pub zones: ZoneEdges,
    /// The squared distance of the pointer from the frame.
    pub distance: Scalar,
    /// The area that the frame has in common with the source's original frame.
    pub overlap: Scalar,
}

/// A scene as seen from the pointer.
#[derive(Debug)]
pub struct SceneMeasure {
    /// The source's original frame, from the pointer.
    pub source: FrameMeasure,
    /// The targets, in the order of the scene.
    pub targets: Vec<TargetMeasure>,
}

#[verifier::ext_equal]
pub struct MeasureView {
    pub source: FrameMeasure,
    pub targets: Seq<TargetMeasure>,
}

impl View for SceneMeasure {
    type V = MeasureView;

    open spec fn view(&self) -> MeasureView {
        MeasureView { source: self.source, targets: self.targets@ }
    }
}

/// The stretches of both axes that a zone takes: an edge zone takes one end of
/// an axis and the whole of the other, the center what is between the ends.
pub open spec fn zone_spans(x: AxisSpans, y: AxisSpans, zone: DropZone) -> (Span, Span) {
    match zone {
        DropZone::Center => (x.middle, y.middle),
        DropZone::West => (x.low, y.full),
        DropZone::East => (x.high, y.full),
        DropZone::North => (x.full, y.low),
        DropZone::South => (x.full, y.high),
    }
}

/// The frame of a zone, from the parts of both axes.
pub open spec fn zone_rect(x: AxisSpans, y: AxisSpans, zone: DropZone) -> Rect {
    let (across, down) = zone_spans(x, y, zone);
    Rect {
        origin: Point { x: across.begin, y: down.begin },
        size: Size { width: across.extent, height: down.extent },
    }
}

/// The frame of a zone, from the parts of both axes.
pub fn zone_frame(x: AxisSpans, y: AxisSpans, zone: DropZone) -> (r: Rect)
    ensures
        r == zone_rect(x, y, zone),
{
    let (across, down) = match zone {
        DropZone::Center => (x.middle, y.middle),
        DropZone::West => (x.low, y.full),
        DropZone::East => (x.high, y.full),
        DropZone::North => (x.full, y.low),
        DropZone::South => (x.full, y.high),
    };
    Rect {
        origin: Point { x: across.begin, y: down.begin },
        size: Size { width: across.extent, height: down.extent },
    }
}

impl ZoneEdges {
    pub open spec fn spec_of(self, zone: DropZone) -> Edges {
        match zone {
            DropZone::Center => self.center,
            DropZone::West => self.west,
            DropZone::East => self.east,
            DropZone::North => self.north,
            DropZone::South => self.south,
        }
    }

    /// The sides of one zone.
    #[verifier::when_used_as_spec(spec_of)]
    pub fn of(self, zone: DropZone) -> (r: Edges)
        ensures
            r == self.spec_of(zone),
    {
        match zone {
            DropZone::Center => self.center,
            DropZone::West => self.west,
            DropZone::East => self.east,
            DropZone::North => self.north,
            DropZone::South => self.south,
        }
    }
}

impl Ratios {
    /// Whether every share is at least `fraction`.
    pub open spec fn all_reach(self, fraction: Scalar) -> bool {
        fraction.le(self.left) && fraction.le(self.right) && fraction.le(self.top) && fraction.le(
            self.bottom,
        )
    }

    /// The side with the least share. Of equal shares the earlier side in the
    /// order west, east, north, south counts.
    pub open spec fn nearest_side(self) -> DropZone {
        nearer(
            nearer(
                nearer((self.left, DropZone::West), (self.right, DropZone::East)),
                (self.top, DropZone::North),
            ),
            (self.bottom, DropZone::South),
        ).1
    }

    /// The share that belongs to a side.
    pub open spec fn share(self, zone: DropZone) -> Scalar {
        match zone {
            DropZone::East => self.right,
            DropZone::North => self.top,
            DropZone::South => self.bottom,
            _ => self.left,
        }
    }
}

/// The second side where its share is strictly less, else the first.
pub open spec fn nearer(a: (Scalar, DropZone), b: (Scalar, DropZone)) -> (Scalar, DropZone) {
    if b.0.lt(a.0) {
        b
    } else {
        a
    }
}

/// The zone of `frame` in which `point` lies, `None` for a point outside and
/// for a frame without extent.
pub open spec fn zone_of(
    frame: Rect,
    point: Point,
    fraction: Scalar,
    measure: FrameMeasure,
) -> Option<DropZone> {
    if frame.size.width.le(Scalar::spec_zero()) || frame.size.height.le(Scalar::spec_zero())
        || !measure.edges.holds(point) {
        None
    } else if measure.ratios.all_reach(fraction) {
        Some(DropZone::Center)
    } else {
        Some(measure.ratios.nearest_side())
    }
}

/// The zone of `frame` in which `point` lies: the center where every side is
/// at least `fraction` away, else the nearest side.
pub fn classify_zone(
    frame: Rect,
    point: Point,
    fraction: Scalar,
    measure: FrameMeasure,
) -> (r: Option<DropZone>)
    ensures
        r == zone_of(frame, point, fraction, measure),
{
    if frame.size.width.at_most(Scalar::zero()) || frame.size.height.at_most(Scalar::zero())
        || !measure.edges.contains(point) {
        return None;
    }
    let Ratios { left, right, top, bottom } = measure.ratios;
    if fraction.at_most(left) && fraction.at_most(right) && fraction.at_most(top)
        && fraction.at_most(bottom) {
        return Some(DropZone::Center);
    }
    let mut nearest = (left, DropZone::West);
    if right.less_than(nearest.0) {
        nearest = (right, DropZone::East);
    }
    if top.less_than(nearest.0) {
        nearest = (top, DropZone::North);
    }
    if bottom.less_than(nearest.0) {
        nearest = (bottom, DropZone::South);
    }
    Some(nearest.1)
}

/// The action of a drop in `zone`.
pub open spec fn zone_action(zone: DropZone, center: MouseDropAction) -> WindowDropAction {
    match zone {
        DropZone::Center => match center {
            MouseDropAction::Swap => WindowDropAction::Swap,
            MouseDropAction::Stack => WindowDropAction::Stack,
        },
        DropZone::West => WindowDropAction::Insert(Direction::Left),
        DropZone::East => WindowDropAction::Insert(Direction::Right),
        DropZone::North => WindowDropAction::Insert(Direction::Up),
        DropZone::South => WindowDropAction::Insert(Direction::Down),
    }
}

/// The action of a drop in `zone`: an insertion on the side of an edge zone,
/// the configured action in the center.
pub fn resolve_action(zone: DropZone, center: MouseDropAction) -> (r: WindowDropAction)
    ensures
        r == zone_action(zone, center),
{
    match zone {
        DropZone::Center => WindowDropAction::from(center),
        DropZone::West => WindowDropAction::Insert(Direction::Left),
        DropZone::East => WindowDropAction::Insert(Direction::Right),
        DropZone::North => WindowDropAction::Insert(Direction::Up),
        DropZone::South => WindowDropAction::Insert(Direction::Down),
    }
}

/// All that decides where a drop goes.
#[verifier::ext_equal]
pub struct HitQuery {
    pub scene: SceneView,
    pub point: Point,
    pub fraction: Scalar,
    pub center: MouseDropAction,
    pub previous: Option<DropIntent>,
    pub unavailable: Seq<Rejected>,
    pub source: Option<DragSource>,
    pub measure: MeasureView,
}

impl HitQuery {
    /// Every target was measured.
    pub open spec fn measured(self) -> bool {
        self.measure.targets.len() == self.scene.targets.len()
    }

    pub open spec fn is_target(self, i: int) -> bool {
        0 <= i < self.scene.targets.len()
    }

    /// The action of a drop in `zone` of a target.
    pub open spec fn action(self, zone: DropZone) -> WindowDropAction {
        match self.scene.action_override {
            Some(action) => action,
            None => zone_action(zone, self.center),
        }
    }

    pub open spec fn available(self, intent: DropIntent) -> bool {
        !self.unavailable.contains(intent.rejection())
    }

    /// The drop in `zone` of target `i`.
    pub open spec fn intent_on(self, i: int, zone: DropZone) -> DropIntent {
        let target = self.scene.targets[i];
        DropIntent {
            window: target.window,
            space: target.space,
            frame: target.frame,
            zone,
            action: self.action(zone),
        }
    }

    /// Target `i` is the first one of `window`.
    pub open spec fn is_first_of(self, window: WindowId, i: int) -> bool {
        self.is_target(i) && self.scene.targets[i].window == window && forall|j: int|
            0 <= j < i ==> self.scene.targets[j].window != window
    }

    /// The previous intent, where its window is still a target and the pointer
    /// has not left the zone by more than the margin.
    pub open spec fn retained(self) -> Option<DropIntent> {
        match self.previous {
            None => None,
            Some(previous) => if exists|i: int| self.is_first_of(previous.window, i) {
                let i = choose|i: int| self.is_first_of(previous.window, i);
                let intent = DropIntent {
                    frame: self.scene.targets[i].frame,
                    action: self.action(previous.zone),
                    ..previous
                };
                if self.measure.targets[i].zones.spec_of(previous.zone).holds(self.point)
                    && self.available(intent) {
                    Some(intent)
                } else {
                    None
                }
            } else {
                None
            },
        }
    }

    /// The zone of target `i` under the pointer.
    pub open spec fn zone_under(self, i: int) -> Option<DropZone> {
        zone_of(
            self.scene.targets[i].frame,
            self.point,
            self.fraction,
            self.measure.targets[i].frame,
        )
    }

    /// The pointer lies in an available zone of target `i`.
    pub open spec fn is_hit(self, i: int) -> bool {
        self.is_target(i) && self.measure.targets[i].frame.edges.holds(self.point) && (
        match self.zone_under(i) {
            Some(zone) => self.available(self.intent_on(i, zone)),
            None => false,
        })
    }

    pub open spec fn is_first_hit(self, i: int) -> bool {
        self.is_hit(i) && forall|j: int| 0 <= j < i ==> !self.is_hit(j)
    }

    /// The drop on the first target, in the order of the scene, that the
    /// pointer hits.
    pub open spec fn direct(self) -> Option<DropIntent> {
        if exists|i: int| self.is_first_hit(i) {
            let i = choose|i: int| self.is_first_hit(i);
            Some(self.intent_on(i, self.zone_under(i)->0))
        } else {
            None
        }
    }

    /// No target covers any part of the source's original frame.
    pub open spec fn source_is_clear(self) -> bool {
        forall|i: int|
            self.is_target(i) ==> !Scalar::spec_zero().lt(
                (#[trigger] self.measure.targets[i]).overlap,
            )
    }

    /// The move of the source by one place, for a pointer in an edge zone of
    /// its original frame.
    pub open spec fn own_edge(self) -> Option<DropIntent> {
        if self.scene.action_override is None && self.source is Some
            && self.source->0.current_space is Some && self.source_is_clear() {
            let source = self.source->0;
            match zone_of(source.origin_frame, self.point, self.fraction, self.measure.source) {
                Some(zone) => match zone_action(zone, self.center) {
                    WindowDropAction::Insert(direction) => {
                        let intent = DropIntent {
                            window: source.window,
                            space: source.current_space->0,
                            frame: source.origin_frame,
                            zone,
                            action: WindowDropAction::Move(direction),
                        };
                        if self.available(intent) {
                            Some(intent)
                        } else {
                            None
                        }
                    },
                    _ => None,
                },
                None => None,
            }
        } else {
            None
        }
    }

    /// The drop on target `i` at its point nearest to the pointer.
    pub open spec fn nearby(self, i: int) -> Option<DropIntent> {
        let measure = self.measure.targets[i];
        match zone_of(
            self.scene.targets[i].frame,
            measure.frame.edges.nearest_point(self.point),
            self.fraction,
            FrameMeasure { edges: measure.frame.edges, ratios: measure.clamped },
        ) {
            Some(zone) => Some(self.intent_on(i, zone)),
            None => None,
        }
    }

    /// Target `i` has extent and, as soon as anything was found impossible,
    /// its nearby drop is possible.
    pub open spec fn eligible(self, i: int) -> bool {
        self.is_target(i) && self.scene.targets[i].frame.positive() && (self.unavailable.len() == 0
            || (self.nearby(i) is Some && self.available(self.nearby(i)->0)))
    }

    /// Target `i` is nearer than target `j`, or as near and not after it.
    pub open spec fn no_farther(self, i: int, j: int) -> bool {
        let a = self.measure.targets[i].distance.total_rank();
        let b = self.measure.targets[j].distance.total_rank();
        a < b || (a == b && i <= j)
    }

    pub open spec fn is_nearest(self, i: int) -> bool {
        self.eligible(i) && forall|j: int| self.eligible(j) ==> self.no_farther(i, j)
    }

    /// The drop on the eligible target nearest to the pointer.
    pub open spec fn nearest(self) -> Option<DropIntent> {
        if exists|i: int| self.is_nearest(i) {
            self.nearby(choose|i: int| self.is_nearest(i))
        } else {
            None
        }
    }

    /// Where the drop goes: it stays with the previous intent while it may,
    /// else it goes to the target under the pointer, else it moves the source
    /// itself, else it goes to the nearest target.
    pub open spec fn intent(self) -> Option<DropIntent> {
        if self.retained() is Some {
            self.retained()
        } else if self.direct() is Some {
            self.direct()
        } else if self.own_edge() is Some {
            self.own_edge()
        } else {
            self.nearest()
        }
    }
}

fn is_rejected(unavailable: &Vec<Rejected>, intent: DropIntent) -> (r: bool)
    ensures
        r == unavailable@.contains(intent.rejection()),
{
    let mut i: usize = 0;
    while i < unavailable.len()
        invariant
            i <= unavailable@.len(),
            forall|j: int| 0 <= j < i ==> unavailable@[j] != intent.rejection(),
        decreases unavailable@.len() - i,
    {
        let (window, zone, action) = unavailable[i];
        if window == intent.window && zone == intent.zone && action == intent.action {
            assert(unavailable@[i as int] == intent.rejection());
            return true;
        }
        i = i + 1;
    }
    false
}

fn scene_action(scene: &DragScene, zone: DropZone, center: MouseDropAction) -> (r:
    WindowDropAction)
    ensures
        r == (match scene.action_override {
            Some(action) => action,
            None => zone_action(zone, center),
        }),
{
    match scene.action_override {
        Some(action) => action,
        None => resolve_action(zone, center),
    }
}

fn target_intent(
    scene: &DragScene,
    target: DragSceneTarget,
    zone: DropZone,
    center: MouseDropAction,
) -> (r: DropIntent)
    ensures
        r == (DropIntent {
            window: target.window,
            space: target.space,
            frame: target.frame,
            zone,
            action: match scene.action_override {
                Some(action) => action,
                None => zone_action(zone, center),
            },
        }),
{
    DropIntent {
        window: target.window,
        space: target.space,
        frame: target.frame,
        zone,
        action: scene_action(scene, zone, center),
    }
}

fn first_of(scene: &DragScene, window: WindowId, Ghost(query): Ghost<HitQuery>) -> (r: Option<
    usize,
>)
    requires
        query.scene == scene@,
    ensures
        r matches Some(i) ==> query.is_first_of(window, i as int),
        r is None ==> forall|i: int| !query.is_first_of(window, i),
{
    let mut i: usize = 0;
    while i < scene.targets.len()
        invariant
            query.scene == scene@,
            i <= scene.targets@.len(),
            forall|j: int| 0 <= j < i ==> scene.targets@[j].window != window,
        decreases scene.targets@.len() - i,
    {
        if scene.targets[i].window == window {
            return Some(i);
        }
        i = i + 1;
    }
    None
}

fn retained_intent(
    scene: &DragScene,
    point: Point,
    center: MouseDropAction,
    previous: Option<DropIntent>,
    unavailable: &Vec<Rejected>,
    measure: &SceneMeasure,
    Ghost(query): Ghost<HitQuery>,
) -> (r: Option<DropIntent>)
    requires
        query.scene == scene@,
        query.point == point,
        query.center == center,
        query.previous == previous,
        query.unavailable == unavailable@,
        query.measure == measure@,
        query.measured(),
    ensures
        r == query.retained(),
{
    let Some(previous) = previous else {
        return None;
    };
    let Some(i) = first_of(scene, previous.window, Ghost(query)) else {
        return None;
    };
    proof {
        let chosen = choose|k: int| query.is_first_of(previous.window, k);
        assert(query.is_first_of(previous.window, i as int));
        assert(chosen == i);
    }
    if !measure.targets[i].zones.of(previous.zone).contains(point) {
        return None;
    }
    let intent = DropIntent {
        window: previous.window,
        space: previous.space,
        frame: scene.targets[i].frame,
        zone: previous.zone,
        action: scene_action(scene, previous.zone, center),
    };
    if is_rejected(unavailable, intent) {
        return None;
    }
    Some(intent)
}

fn direct_intent(
    scene: &DragScene,
    point: Point,
    fraction: Scalar,
    center: MouseDropAction,
    unavailable: &Vec<Rejected>,
    measure: &SceneMeasure,
    Ghost(query): Ghost<HitQuery>,
) -> (r: Option<DropIntent>)
    requires
        query.scene == scene@,
        query.point == point,
        query.fraction == fraction,
        query.center == center,
        query.unavailable == unavailable@,
        query.measure == measure@,
        query.measured(),
    ensures
        r == query.direct(),
{
    let mut i: usize = 0;
    while i < scene.targets.len()
        invariant
            query.scene == scene@,
            query.point == point,
            query.fraction == fraction,
            query.center == center,
            query.unavailable == unavailable@,
            query.measure == measure@,
            query.measured(),
            i <= scene.targets@.len(),
            forall|j: int| 0 <= j < i ==> !query.is_hit(j),
        decreases scene.targets@.len() - i,
    {
        let target = scene.targets[i];
        let seen = measure.targets[i].frame;
        if seen.edges.contains(point) {
            if let Some(zone) = classify_zone(target.frame, point, fraction, seen) {
                let intent = target_intent(scene, target, zone, center);
                if !is_rejected(unavailable, intent) {
                    proof {
                        assert(query.is_first_hit(i as int));
                        let chosen = choose|k: int| query.is_first_hit(k);
                        assert(query.is_first_hit(chosen));
                        assert(chosen == i) by {
                            if chosen < i {
                                assert(!query.is_hit(chosen));
                            } else if i < chosen {
                                assert(!query.is_hit(i as int));
                            }
                        }
                    }
                    return Some(intent);
                }
            }
        }
        i = i + 1;
    }
    None
}

fn own_edge_intent(
    scene: &DragScene,
    point: Point,
    fraction: Scalar,
    center: MouseDropAction,
    unavailable: &Vec<Rejected>,
    source: Option<DragSource>,
    measure: &SceneMeasure,
    Ghost(query): Ghost<HitQuery>,
) -> (r: Option<DropIntent>)
    requires
        query.scene == scene@,
        query.point == point,
        query.fraction == fraction,
        query.center == center,
        query.unavailable == unavailable@,
        query.source == source,
        query.measure == measure@,
        query.measured(),
    ensures
        r == query.own_edge(),
{
    if scene.action_override.is_some() {
        return None;
    }
    let Some(source) = source else {
        return None;
    };
    let Some(space) = source.current_space else {
        return None;
    };
    let Some(zone) = classify_zone(source.origin_frame, point, fraction, measure.source) else {
        return None;
    };
    let WindowDropAction::Insert(direction) = resolve_action(zone, center) else {
        return None;
    };
    let mut i: usize = 0;
    while i < measure.targets.len()
        invariant
            query.measure == measure@,
            query.measured(),
            i <= measure.targets@.len(),
            forall|j: int|
                0 <= j < i ==> !Scalar::spec_zero().lt((#[trigger] measure.targets@[j]).overlap),
        decreases measure.targets@.len() - i,
    {
        if Scalar::zero().less_than(measure.targets[i].overlap) {
            assert(query.is_target(i as int));
            assert(!query.source_is_clear()) by {
                assert(Scalar::spec_zero().lt(query.measure.targets[i as int].overlap));
            }
            return None;
        }
        i = i + 1;
    }
    assert(query.source_is_clear());
    let intent = DropIntent {
        window: source.window,
        space,
        frame: source.origin_frame,
        zone,
        action: WindowDropAction::Move(direction),
    };
    if is_rejected(unavailable, intent) {
        return None;
    }
    Some(intent)
}

fn nearest_intent(
    scene: &DragScene,
    point: Point,
    fraction: Scalar,
    center: MouseDropAction,
    unavailable: &Vec<Rejected>,
    measure: &SceneMeasure,
    Ghost(query): Ghost<HitQuery>,
) -> (r: Option<DropIntent>)
    requires
        query.scene == scene@,
        query.point == point,
        query.fraction == fraction,
        query.center == center,
        query.unavailable == unavailable@,
        query.measure == measure@,
        query.measured(),
    ensures
        r == query.nearest(),
{
    let mut best: Option<usize> = None;
    let mut found: Option<DropIntent> = None;
    let mut i: usize = 0;
    while i < scene.targets.len()
        invariant
            query.scene == scene@,
            query.point == point,
            query.fraction == fraction,
            query.center == center,
            query.unavailable == unavailable@,
            query.measure == measure@,
            query.measured(),
            i <= scene.targets@.len(),
            best is None ==> found is None && forall|j: int| 0 <= j < i ==> !query.eligible(j),
            best matches Some(b) ==> b < i && query.eligible(b as int) && found == query.nearby(
                b as int,
            ) && forall|j: int|
                0 <= j < i && query.eligible(j) ==> query.no_farther(b as int, j),
        decreases scene.targets@.len() - i,
    {
        let target = scene.targets[i];
        let seen = measure.targets[i];
        if target.frame.is_positive() {
            let nearby = match classify_zone(
                target.frame,
                seen.frame.edges.clamp_point(point),
                fraction,
                FrameMeasure { edges: seen.frame.edges, ratios: seen.clamped },
            ) {
                Some(zone) => Some(target_intent(scene, target, zone, center)),
                None => None,
            };
            assert(nearby == query.nearby(i as int));
            let open = if unavailable.len() == 0 {
                true
            } else {
                match nearby {
                    Some(intent) => !is_rejected(unavailable, intent),
                    None => false,
                }
            };
            assert(open == query.eligible(i as int));
            if open {
                let closer = match best {
                    Some(b) => seen.distance.sorts_before(measure.targets[b].distance),
                    None => true,
                };
                if closer {
                    best = Some(i);
                    found = nearby;
                }
            }
        }
        i = i + 1;
    }
    proof {
        if let Some(b) = best {
            assert(query.is_nearest(b as int));
            let chosen = choose|k: int| query.is_nearest(k);
            assert(query.is_nearest(chosen));
            assert(query.no_farther(chosen, b as int));
            assert(query.no_farther(b as int, chosen));
        } else {
            assert forall|k: int| !query.is_nearest(k) by {}
        }
    }
    found
}

/// Hit-test a scene against what is still possible: no drop in `unavailable`
/// is offered again.
pub fn hit_test_available(
    scene: &DragScene,
    point: Point,
    fraction: Scalar,
    center: MouseDropAction,
    previous: Option<DropIntent>,
    unavailable: &Vec<Rejected>,
    source: Option<DragSource>,
    measure: &SceneMeasure,
) -> (r: Option<DropIntent>)
    requires
        measure.targets@.len() == scene.targets@.len(),
    ensures
        r == (HitQuery {
            scene: scene@,
            point,
            fraction,
            center,
            previous,
            unavailable: unavailable@,
            source,
            measure: measure@,
        }).intent(),
{
    let ghost query = HitQuery {
        scene: scene@,
        point,
        fraction,
        center,
        previous,
        unavailable: unavailable@,
        source,
        measure: measure@,
    };
    let retained = retained_intent(
        scene,
        point,
        center,
        previous,
        unavailable,
        measure,
        Ghost(query),
    );
    if retained.is_some() {
        return retained;
    }
    let direct = direct_intent(scene, point, fraction, center, unavailable, measure, Ghost(query));
    if direct.is_some() {
        return direct;
    }
    let own = own_edge_intent(
        scene,
        point,
        fraction,
        center,
        unavailable,
        source,
        measure,
        Ghost(query),
    );
    if own.is_some() {
        return own;
    }
    nearest_intent(scene, point, fraction, center, unavailable, measure, Ghost(query))
}

/// Hit-test a scene in which everything is possible and no source takes part.
pub fn hit_test(
    scene: &DragScene,
    point: Point,
    fraction: Scalar,
    center: MouseDropAction,
    previous: Option<DropIntent>,
    measure: &SceneMeasure,
) -> (r: Option<DropIntent>)
    requires
        measure.targets@.len() == scene.targets@.len(),
    ensures
        r == (HitQuery {
            scene: scene@,
            point,
            fraction,
            center,
            previous,
            unavailable: Seq::empty(),
            source: None,
            measure: measure@,
        }).intent(),
{
    let nothing: Vec<Rejected> = Vec::new();
    hit_test_available(scene, point, fraction, center, previous, &nothing, None, measure)
}

/// The frame that a preview shows of an area which, drawn in on every side, is
/// `inset`.
pub open spec fn preview_rect(inset: Rect) -> Rect {
    Rect {
        origin: inset.origin,
        size: Size {
            width: inset.size.width.at_least(Scalar::spec_zero()),
            height: inset.size.height.at_least(Scalar::spec_zero()),
        },
    }
}

/// The frame that a preview shows of an area. `inset` is that area, drawn in
/// on every side by [`PREVIEW_INSET_POINTS`]; one that was too small for it
/// shows nothing.
pub fn preview_frame(inset: Rect) -> (r: Rect)
    ensures
        r == preview_rect(inset),
{
    Rect {
        origin: inset.origin,
        size: Size {
            width: inset.size.width.raised_to(Scalar::zero()),
            height: inset.size.height.raised_to(Scalar::zero()),
        },
    }
}

} // verus!
