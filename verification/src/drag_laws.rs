//! What holds of every drag, whatever happens in which order.

use crate::drag::{fresh, ActorView, NativeStart, SessionView, StartKind, StateView};
use crate::geometry::{resized_frame, Point, Rect, ResizeMeasure};
use crate::hit_test::{HitQuery, MeasureView};
use crate::hit_test_laws::law_offered_drop_is_available;
use crate::ids::{SpaceId, WindowId};
use crate::model::{
    same_choice, DragCommit, DragDropSettings, DragKind, DragSceneTarget, DragSource, DropIntent, DropTarget,
    MouseButton, SceneView,
};
use vstd::prelude::*;

verus! {

/// Something that happens to a drag actor.
pub enum DragStep {
    SpaceFound(Option<SpaceId>),
    SceneReplaced(SceneView, MeasureView),
    Answered(DropIntent, Option<Rect>, MeasureView),
    Configured(DragDropSettings),
    Announced(StartKind),
    Resolved(u64, Option<DragSource>, SceneView, NativeStart),
    SeenAt(WindowId, Rect, Option<SpaceId>, bool),
    PointerMoved(Point, Point, ResizeMeasure, MeasureView),
    Released(MouseButton),
    Cancelled,
    WindowGone(WindowId),
}

/// The actor after a step.
pub open spec fn after(actor: ActorView, step: DragStep) -> ActorView {
    match step {
        DragStep::SpaceFound(space) => actor.in_space(space),
        DragStep::SceneReplaced(scene, measure) => actor.over(scene, measure),
        DragStep::Answered(intent, area, measure) => actor.answered(intent, area, measure),
        DragStep::Configured(settings) => actor.configured(settings),
        DragStep::Announced(kind) => actor.awaiting(kind),
        DragStep::Resolved(id, source, scene, start) => actor.resolved(id, source, scene, start),
        DragStep::SeenAt(window, frame, space, size_kept) => actor.natively_at(
            window,
            frame,
            space,
            size_kept,
        ),
        DragStep::PointerMoved(point, moved, resize, measure) => actor.moved_to(
            point,
            moved,
            resize,
            measure,
        ),
        DragStep::Released(button) => actor.released(button),
        DragStep::Cancelled => actor.idle(),
        DragStep::WindowGone(window) => actor.without(window),
    }
}

/// The actor after a history of steps.
pub open spec fn after_all(actor: ActorView, steps: Seq<DragStep>) -> ActorView
    decreases steps.len(),
{
    if steps.len() == 0 {
        actor
    } else {
        after(after_all(actor, steps.drop_last()), steps.last())
    }
}

/// No step gives a drop target to a floating window or to one that has left
/// its space.
pub proof fn law_step_keeps_wf(actor: ActorView, step: DragStep)
    requires
        actor.wf(),
    ensures
        after(actor, step).wf(),
{
}

/// Whatever has happened to an actor, only a tiled window in the space where
/// its drag began has an intent or a target.
pub proof fn law_only_tiled_windows_in_their_space_are_dropped(
    settings: DragDropSettings,
    steps: Seq<DragStep>,
)
    ensures
        after_all(fresh(settings), steps).wf(),
        after_all(fresh(settings), steps).session() matches Some(session) ==> (
        !session.source.tiled || session.source.origin_space != session.source.current_space ==> {
            &&& after_all(fresh(settings), steps).intent() is None
            &&& after_all(fresh(settings), steps).target() is None
        }),
    decreases steps.len(),
{
    if steps.len() > 0 {
        law_only_tiled_windows_in_their_space_are_dropped(settings, steps.drop_last());
        law_step_keeps_wf(after_all(fresh(settings), steps.drop_last()), steps.last());
    }
}

/// A release with another button changes nothing; a release with the button
/// that began the drag ends it, so that no drag is committed twice.
pub proof fn law_only_the_owning_button_commits_and_once(
    actor: ActorView,
    button: MouseButton,
    again: MouseButton,
)
    ensures
        !actor.held_by(button) ==> actor.released(button) == actor,
        actor.held_by(button) ==> !actor.released(button).held_by(again),
{
}

/// A second announcement makes the first one stale: its lookup is neither
/// accepted nor does it change anything.
pub proof fn law_stale_resolution_is_ignored(
    actor: ActorView,
    first: StartKind,
    second: StartKind,
    source: Option<DragSource>,
    scene: SceneView,
    start: NativeStart,
)
    ensures
        !actor.awaiting(first).awaiting(second).accepts(actor.next_session_id, source),
        actor.awaiting(first).awaiting(second).resolved(
            actor.next_session_id,
            source,
            scene,
            start,
        ) == actor.awaiting(first).awaiting(second),
        actor.awaiting(first).awaits(actor.next_session_id),
{
}

/// Another scene, another space and another meaning of drops all withdraw a
/// validated target; the latter two withdraw the intent as well.
pub proof fn law_change_withdraws_the_target(
    actor: ActorView,
    scene: SceneView,
    measure: MeasureView,
    space: Option<SpaceId>,
    settings: DragDropSettings,
)
    ensures
        actor.over(scene, measure).target() is None,
        actor.session() matches Some(session) ==> (session.source.current_space != space ==> {
            &&& actor.in_space(space).target() is None
            &&& actor.in_space(space).intent() is None
        }),
        actor.reinterprets(settings) || !settings.enabled ==> {
            &&& actor.configured(settings).target() is None
            &&& actor.configured(settings).intent() is None
        },
{
}

/// A drop that was found impossible exposes no target, and neither the drop
/// that takes its place nor one that a later motion turns to is among those
/// found impossible.
pub proof fn law_impossible_drop_is_not_offered_again(
    session: SessionView,
    intent: DropIntent,
    settings: DragDropSettings,
    point: Point,
    moved: Point,
    resize: ResizeMeasure,
    measure: MeasureView,
)
    requires
        measure.targets.len() == session.scene.targets.len(),
    ensures
        session.rejected(intent, settings, measure).target.spec_validated() is None,
        session.rejected(intent, settings, measure).unavailable.contains(intent.rejection()),
        session.rejected(intent, settings, measure).target.spec_intent() matches Some(next)
            ==> !session.rejected(intent, settings, measure).unavailable.contains(next.rejection()),
        session.moved_to(point, settings, moved, resize, measure).unavailable
            == session.unavailable,
        session.moved_to(point, settings, moved, resize, measure).target.spec_intent() matches Some(
            next,
        ) ==> same_choice(Some(next), session.target.spec_intent())
            || !session.unavailable.contains(next.rejection()),
{
    let tried = SessionView { unavailable: session.unavailable.push(intent.rejection()), ..session };
    assert(tried.unavailable[session.unavailable.len() as int] == intent.rejection());
    law_offered_drop_is_available(
        HitQuery {
            scene: tried.scene,
            point: session.pointer,
            fraction: settings.drop_zone_fraction,
            center: settings.drop_action,
            previous: None,
            unavailable: tried.unavailable,
            source: Some(tried.source),
            measure,
        },
    );
    let there = SessionView {
        source: DragSource {
            last_frame: session.frame_after(moved, resize),
            ..session.source
        },
        pointer: point,
        ..session
    };
    law_offered_drop_is_available(
        HitQuery {
            scene: there.scene,
            point,
            fraction: settings.drop_zone_fraction,
            center: settings.drop_action,
            previous: session.target.spec_intent(),
            unavailable: there.unavailable,
            source: Some(there.source),
            measure,
        },
    );
}

/// Once a window has gone, neither the scene nor the intent of a drag speaks
/// of it, and no drag has it as its source.
pub proof fn law_gone_window_is_forgotten(actor: ActorView, window: WindowId)
    ensures
        actor.without(window).session() matches Some(session) ==> {
            &&& session.source.window != window
            &&& forall|i: int|
                0 <= i < session.scene.targets.len() ==> (
                #[trigger] session.scene.targets[i]).window != window
            &&& session.target.spec_intent() matches Some(intent) ==> intent.window != window
        },
        !actor.without(window).depends_on(window),
{
    if let StateView::Dragging(session) = actor.state {
        broadcast use vstd::seq_lib::group_filter_ensures;

        let keep = |t: DragSceneTarget| t.window != window;
        let kept = session.scene.targets.filter(keep);
        assert forall|i: int| 0 <= i < kept.len() implies (#[trigger] kept[i]).window != window by {
            assert(keep(kept[i]));
        }
    }
}

/// A motion in a drag that cannot drop, such as a resize, leaves no intent.
pub proof fn law_undroppable_motion_has_no_intent(
    session: SessionView,
    settings: DragDropSettings,
    point: Point,
    moved: Point,
    resize: ResizeMeasure,
    measure: MeasureView,
)
    requires
        !session.droppable(),
    ensures
        session.moved_to(point, settings, moved, resize, measure).target.spec_intent() is None,
{
}

/// A motion moves the pointer and the frame and reconsiders the target; all
/// else about the drag stays as it was.
pub proof fn law_motion_keeps_the_rest(
    session: SessionView,
    settings: DragDropSettings,
    point: Point,
    moved: Point,
    resize: ResizeMeasure,
    measure: MeasureView,
)
    ensures
        session.moved_to(point, settings, moved, resize, measure) == (SessionView {
            source: DragSource {
                last_frame: session.moved_to(
                    point,
                    settings,
                    moved,
                    resize,
                    measure,
                ).source.last_frame,
                ..session.source
            },
            pointer: point,
            target: session.moved_to(point, settings, moved, resize, measure).target,
            ..session
        }),
{
}

/// A release commits the target that was validated last, and a drop that
/// nobody has validated is not committed.
pub proof fn law_only_validated_targets_are_committed(
    actor: ActorView,
    button: MouseButton,
    intent: DropIntent,
    area: Rect,
    measure: MeasureView,
)
    requires
        actor.held_by(button),
    ensures
        same_choice(actor.intent(), Some(intent)) ==> actor.answered(
            intent,
            Some(area),
            measure,
        ).commit(button) == Some(
            DragCommit {
                target: Some(DropTarget { intent, preview_area: area }),
                ..actor.commit(button)->0
            },
        ),
        actor.target() is None ==> actor.commit(button)->0.target is None,
        actor.released(button).commit(button) is None,
{
}

/// A pointer sample and what it amounts to.
pub struct Sample {
    pub point: Point,
    pub moved: Point,
    pub resize: ResizeMeasure,
    pub measure: MeasureView,
}

/// The session after one sample.
pub open spec fn sampled(
    session: SessionView,
    settings: DragDropSettings,
    sample: Sample,
) -> SessionView {
    session.moved_to(sample.point, settings, sample.moved, sample.resize, sample.measure)
}

/// The session after samples that come one after the other.
pub open spec fn sampled_all(
    session: SessionView,
    settings: DragDropSettings,
    samples: Seq<Sample>,
) -> SessionView
    decreases samples.len(),
{
    if samples.len() == 0 {
        session
    } else {
        sampled(sampled_all(session, settings, samples.drop_last()), settings, samples.last())
    }
}

/// `sample.moved` is exactly the origin of `session`'s original frame, moved by
/// as much as the pointer since the press.
pub open spec fn exactly_moved(session: SessionView, sample: Sample) -> bool {
    let origin = session.source.origin_frame.origin;
    let anchor = session.anchor_point;
    &&& sample.moved.x.units() == origin.x.units() + (sample.point.x.units() - anchor.x.units())
    &&& sample.moved.y.units() == origin.y.units() + (sample.point.y.units() - anchor.y.units())
}

proof fn lemma_samples_keep_the_rest(
    session: SessionView,
    settings: DragDropSettings,
    samples: Seq<Sample>,
)
    ensures
        ({
            let after = sampled_all(session, settings, samples);
            &&& after.source == (DragSource {
                last_frame: after.source.last_frame,
                ..session.source
            })
            &&& after.anchor_point == session.anchor_point
            &&& after.kind == session.kind
            &&& after.button == session.button
            &&& session.kind.native() ==> after.source == session.source
        }),
    decreases samples.len(),
{
    if samples.len() > 0 {
        lemma_samples_keep_the_rest(session, settings, samples.drop_last());
    }
}

/// A drag does not drift: however many samples have come, the frame of its
/// source is what the last of them alone gives, and all else about the source
/// is as it was. A moved window keeps the size of its original frame and lies
/// as far from it as the pointer from the press; a window that the system
/// carries along is left alone.
pub proof fn law_motions_do_not_drift(
    session: SessionView,
    settings: DragDropSettings,
    samples: Seq<Sample>,
)
    requires
        samples.len() > 0,
    ensures
        ({
            let source = sampled_all(session, settings, samples).source;
            let last = samples.last();
            &&& source == sampled(session, settings, last).source
            &&& source == (DragSource { last_frame: source.last_frame, ..session.source })
            &&& session.kind.native() ==> source == session.source
            &&& session.kind == DragKind::ModifierMove ==> {
                &&& source.last_frame.size == session.source.origin_frame.size
                &&& source.last_frame.origin == last.moved
                &&& exactly_moved(session, last) ==> {
                    let (there, origin) = (source.last_frame.origin, source.origin_frame.origin);
                    &&& there.x.units() - origin.x.units() == last.point.x.units()
                        - session.anchor_point.x.units()
                    &&& there.y.units() - origin.y.units() == last.point.y.units()
                        - session.anchor_point.y.units()
                }
            }
            &&& session.kind == DragKind::ModifierResize ==> source.last_frame == resized_frame(
                session.source.origin_frame,
                session.anchor_point,
                last.resize,
            )
        }),
{
    lemma_samples_keep_the_rest(session, settings, samples.drop_last());
}

} // verus!
