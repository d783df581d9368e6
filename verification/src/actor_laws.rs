//! What each thing that can happen to a drag does to it.

use crate::drag::{
    fresh, ActorView, NativeStart, PendingStart, SessionView, StartKind, StateView, TargetState,
};
use crate::drag_manager::ManagerView;
use crate::drop_laws::{
    acts, covers, law_drop_goes_to_the_window_under_the_pointer,
    law_offered_drops_do_what_their_zone_says, left_previous_zone,
};
use crate::exact::{exactly_holds, unit};
use crate::geometry::{resized_frame, Point, Rect, ResizeMeasure};
use crate::hit_test::{zone_rect, AxisSpans, HitQuery, MeasureView};
use crate::ids::{SpaceId, WindowId};
use crate::measure_laws::{exactly_seen, within_margin};
use crate::model::{
    DragDropSettings, DragKind, DragSceneTarget, DragSource, DropIntent,
    DropTarget, DropZone, MouseAction, MouseButton, SceneView, WindowDropAction,
};
use crate::scalar::Scalar;
use vstd::prelude::*;

verus! {

/// The intent of a target state, possible or not.
pub open spec fn asks_for(target: TargetState, intent: Option<DropIntent>) -> bool {
    match target {
        TargetState::Unset => intent is None,
        TargetState::Candidate(asked) => intent == Some(asked),
        TargetState::Validated(found) => intent == Some(found.intent),
    }
}

/// The same window of the same space, with the same action; or no drop at all.
pub open spec fn alike(a: Option<DropIntent>, b: Option<DropIntent>) -> bool {
    match (a, b) {
        (Some(a), Some(b)) => a.window == b.window && a.space == b.space && a.action == b.action,
        _ => a is None && b is None,
    }
}

/// A tiled window that is moved, and that is in the space it started in.
pub open spec fn can_be_dropped(session: SessionView) -> bool {
    &&& session.source.tiled
    &&& session.kind == DragKind::NativeMove || session.kind == DragKind::ModifierMove
    &&& session.source.origin_space == session.source.current_space
}

/// What the scene is asked for a pointer at `point`.
pub open spec fn question(
    session: SessionView,
    settings: DragDropSettings,
    point: Point,
    previous: Option<DropIntent>,
    measure: MeasureView,
) -> HitQuery {
    HitQuery {
        scene: session.scene,
        point,
        fraction: settings.drop_zone_fraction,
        center: settings.drop_action,
        previous,
        unavailable: session.unavailable,
        source: Some(session.source),
        measure,
    }
}

/// Two sessions that differ in nothing but pointer, frame, target and what was
/// found impossible.
pub open spec fn same_drag(a: SessionView, b: SessionView) -> bool {
    &&& a.source.window == b.source.window && a.source.origin_frame == b.source.origin_frame
    &&& a.source.origin_space == b.source.origin_space && a.source.tiled == b.source.tiled
    &&& a.button == b.button && a.anchor_point == b.anchor_point
}

/// Only moves of tiled windows within their space can end in a drop.
pub proof fn law_what_can_be_dropped(session: SessionView)
    ensures
        session.droppable() <==> can_be_dropped(session),
        session.kind.native() <==> session.kind == DragKind::NativeMove || session.kind
            == DragKind::NativeResize,
        session.kind.moves() <==> session.kind == DragKind::NativeMove || session.kind
            == DragKind::ModifierMove,
{
}

/// A motion asks the scene anew. What is asked for afterwards is what the hit
/// test finds for the new pointer, the intent so far being the previous one; a
/// drag that cannot be dropped asks for nothing. A target is kept exactly as
/// long as the pointer asks for the same, and a new one is not yet validated.
pub proof fn law_motion_asks_the_scene_anew(
    actor: ActorView,
    session: SessionView,
    before: Option<DropIntent>,
    point: Point,
    moved: Point,
    resize: ResizeMeasure,
    measure: MeasureView,
)
    requires
        actor.state == StateView::Dragging(session),
        asks_for(session.target, before),
    ensures
        ({
            let after = actor.moved_to(point, moved, resize, measure);
            &&& after.settings == actor.settings && after.next_session_id == actor.next_session_id
            &&& after.state matches StateView::Dragging(now) && {
                let found = if can_be_dropped(session) {
                    question(now, actor.settings, point, before, measure).intent()
                } else {
                    None
                };
                &&& same_drag(now, session)
                &&& now.pointer == point && now.scene == session.scene
                &&& now.unavailable == session.unavailable && now.kind == session.kind
                &&& now.source.current_space == session.source.current_space
                &&& alike(found, before) ==> now.target == session.target
                &&& !alike(found, before) ==> match found {
                    Some(intent) => now.target == TargetState::Candidate(intent),
                    None => now.target == TargetState::Unset,
                }
            }
        }),
{
}

/// A motion onto another window moves the drop there. Once the pointer is out
/// of the zone that had it by more than the margin, and over a window of the
/// scene about which nothing was found impossible, the drop is on that window,
/// with the action of a zone that holds the pointer.
pub proof fn law_motion_drops_where_the_pointer_is(
    actor: ActorView,
    session: SessionView,
    before: Option<DropIntent>,
    point: Point,
    moved: Point,
    resize: ResizeMeasure,
    measure: MeasureView,
    parts: Seq<(AxisSpans, AxisSpans)>,
    i: int,
)
    requires
        actor.state == StateView::Dragging(session),
        asks_for(session.target, before),
        can_be_dropped(session),
        exactly_seen(question(session, actor.settings, point, before, measure), parts),
        left_previous_zone(question(session, actor.settings, point, before, measure), parts),
        Scalar::spec_zero().lt(actor.settings.drop_zone_fraction),
        2 * actor.settings.drop_zone_fraction.units() <= unit(),
        0 <= i < session.scene.targets.len(),
        covers(session.scene.targets[i].frame, point),
        forall|j: int| 0 <= j < i ==> !covers((#[trigger] session.scene.targets[j]).frame, point),
        forall|k: int|
            0 <= k < session.unavailable.len() ==> (#[trigger] session.unavailable[k]).0
                != session.scene.targets[i].window,
    ensures
        ({
            let query = question(session, actor.settings, point, before, measure);
            let after = actor.moved_to(point, moved, resize, measure);
            after.state matches StateView::Dragging(now) && exists|intent: DropIntent|
                #![trigger asks_for(now.target, Some(intent))]
                {
                    &&& asks_for(now.target, Some(intent))
                    &&& intent.window == session.scene.targets[i].window
                    &&& intent.space == session.scene.targets[i].space
                    &&& exists|zone: DropZone|
                        {
                            &&& exactly_holds(
                                #[trigger] zone_rect(parts[i].0, parts[i].1, zone),
                                point,
                            )
                            &&& intent.action is Move || acts(query, zone, intent.action)
                        }
                }
        }),
{
    let after = actor.moved_to(point, moved, resize, measure);
    let now = after.state->Dragging_0;
    let query = question(session, actor.settings, point, before, measure);
    let asked = question(now, actor.settings, point, before, measure);
    law_motion_asks_the_scene_anew(actor, session, before, point, moved, resize, measure);
    assert forall|k: int| asked.is_target(k) implies query.is_target(k) by {}
    assert(exactly_seen(asked, parts)) by {
        assert forall|k: int| asked.is_target(k) implies {
            crate::measure_laws::exact_target(
                (#[trigger] asked.scene.targets[k]).frame,
                asked.point,
                asked.fraction,
                asked.measure.targets[k],
                parts[k].0,
                parts[k].1,
            ) && crate::measure_laws::exact_overlap(
                now.source.origin_frame,
                asked.scene.targets[k].frame,
                asked.measure.targets[k],
            )
        } by {
            assert(query.is_target(k));
            assert(query.scene.targets[k] == asked.scene.targets[k]);
        }
    }
    assert(left_previous_zone(asked, parts)) by {
        if let Some(previous) = before {
            assert forall|k: int|
                0 <= k < asked.scene.targets.len() && (#[trigger] asked.scene.targets[k]).window
                    == previous.window && (forall|j: int|
                    0 <= j < k ==> (#[trigger] asked.scene.targets[j]).window
                        != previous.window) implies {
                ||| !within_margin(zone_rect(parts[k].0, parts[k].1, previous.zone), point)
                ||| exists|action: WindowDropAction| #[trigger]
                    acts(asked, previous.zone, action) && asked.unavailable.contains(
                        (previous.window, previous.zone, action),
                    )
            } by {
                assert(query.scene.targets[k].window == previous.window);
                if within_margin(zone_rect(parts[k].0, parts[k].1, previous.zone), point) {
                    let action = choose|action: WindowDropAction| #[trigger]
                        acts(query, previous.zone, action) && query.unavailable.contains(
                            (previous.window, previous.zone, action),
                        );
                    assert(acts(asked, previous.zone, action));
                }
            }
        }
    }
    law_drop_goes_to_the_window_under_the_pointer(asked, parts, i);
    law_offered_drops_do_what_their_zone_says(asked);
    let found = asked.intent()->0;
    assert(exactly_holds(zone_rect(parts[i].0, parts[i].1, found.zone), point));
    if alike(Some(found), before) {
        assert(asks_for(now.target, before));
        let kept = before->0;
        assert(asks_for(now.target, Some(kept)));
        assert(acts(query, found.zone, kept.action) || kept.action is Move);
    } else {
        assert(asks_for(now.target, Some(found)));
    }
}

/// A motion moves or resizes the frame of a window that is dragged with the
/// modifier held, starting from the original one each time, and leaves that of
/// a window that the system carries.
pub proof fn law_motion_carries_the_frame(
    actor: ActorView,
    session: SessionView,
    point: Point,
    moved: Point,
    resize: ResizeMeasure,
    measure: MeasureView,
)
    requires
        actor.state == StateView::Dragging(session),
    ensures
        actor.moved_to(point, moved, resize, measure).state matches StateView::Dragging(now) && {
            &&& session.kind == DragKind::ModifierMove ==> now.source.last_frame.origin == moved
                && now.source.last_frame.size == session.source.origin_frame.size
            &&& session.kind == DragKind::NativeMove || session.kind == DragKind::NativeResize
                ==> now.source.last_frame == session.source.last_frame
            &&& session.kind == DragKind::ModifierResize ==> now.source.last_frame == resized_frame(
                session.source.origin_frame,
                session.anchor_point,
                resize,
            )
        },
        !(actor.state is Dragging) ==> actor.moved_to(point, moved, resize, measure) == actor,
{
}

/// Nothing but a drag in progress is changed by motions, scenes, spaces and
/// answers.
pub proof fn law_only_drags_are_affected(
    actor: ActorView,
    point: Point,
    resize: ResizeMeasure,
    measure: MeasureView,
    scene: SceneView,
    space: Option<SpaceId>,
    intent: DropIntent,
    area: Option<Rect>,
    window: WindowId,
    frame: Rect,
    size_kept: bool,
    button: MouseButton,
)
    requires
        !(actor.state is Dragging),
    ensures
        actor.moved_to(point, point, resize, measure) == actor,
        actor.over(scene, measure) == actor,
        actor.in_space(space) == actor,
        actor.answered(intent, area, measure) == actor,
        actor.natively_at(window, frame, space, size_kept) == actor,
        actor.commit(button) is None && actor.released(button) == actor,
        actor.intent() is None && actor.target() is None && actor.session() is None,
        !actor.natively_drags(window),
{
}

/// What an actor shows of its state.
pub proof fn law_drag_shows_its_session(actor: ActorView, session: SessionView)
    requires
        actor.state == StateView::Dragging(session),
    ensures
        actor.session() == Some(session),
        asks_for(session.target, actor.intent()),
        actor.target() is Some <==> session.target is Validated,
        session.target matches TargetState::Validated(target) ==> actor.target() == Some(target),
{
}

/// A new actor is idle and counts its drags from one. Announcing a drag takes
/// the next number, and after the last one the count begins again at zero.
pub proof fn law_drags_are_numbered(actor: ActorView, settings: DragDropSettings, kind: StartKind)
    ensures
        fresh(settings).state is Idle,
        fresh(settings).next_session_id == 1,
        fresh(settings).settings == settings,
        actor.awaiting(kind).settings == actor.settings,
        actor.awaiting(kind).state == StateView::AwaitingSource(
            PendingStart { id: actor.next_session_id, kind },
        ),
        actor.next_session_id < u64::MAX ==> actor.awaiting(kind).next_session_id
            == actor.next_session_id + 1,
        actor.next_session_id == u64::MAX ==> actor.awaiting(kind).next_session_id == 0,
{
}

/// A drag that has just begun: the pointer is where it was pressed, and there is
/// neither a target nor anything known to be impossible.
pub open spec fn just_begun(
    session: SessionView,
    source: DragSource,
    scene: SceneView,
    button: MouseButton,
    point: Point,
    kind: DragKind,
) -> bool {
    &&& session.source == source && session.scene == scene && session.button == button
    &&& session.pointer == point && session.anchor_point == point
    &&& session.target == TargetState::Unset && session.unavailable.len() == 0
    &&& session.kind == kind
}

/// The kind of a native drag: a move as long as the size is kept.
pub open spec fn carried(size_kept: bool) -> DragKind {
    if size_kept {
        DragKind::NativeMove
    } else {
        DragKind::NativeResize
    }
}

/// What the end of a lookup does: the awaited one begins the announced drag. A
/// native drag only begins with the window it was announced for, under the left
/// button and at the window's center; a modifier drag begins where the button
/// was pressed. Without a source the actor is idle, and a lookup that is not
/// awaited changes nothing.
pub proof fn law_lookup_begins_the_announced_drag(
    actor: ActorView,
    id: u64,
    source: Option<DragSource>,
    scene: SceneView,
    start: NativeStart,
)
    ensures
        ({
            let after = actor.resolved(id, source, scene, start);
            let taken = actor.accepts(id, source);
            &&& after.settings == actor.settings && after.next_session_id == actor.next_session_id
            &&& match actor.state {
                StateView::AwaitingSource(pending) => if pending.id != id {
                    after == actor && !taken
                } else {
                    match source {
                        None => after.state is Idle && taken,
                        Some(source) => match pending.kind {
                            StartKind::Native { window } => if window == source.window {
                                &&& taken
                                &&& after.state matches StateView::Dragging(session) && just_begun(
                                    session,
                                    source,
                                    scene,
                                    MouseButton::Left,
                                    start.center,
                                    carried(start.size_kept),
                                )
                            } else {
                                after.state is Idle && !taken
                            },
                            StartKind::Modifier { button, point, action } => {
                                &&& taken
                                &&& match action {
                                    MouseAction::Move => after.state matches StateView::Dragging(
                                        session,
                                    ) && just_begun(
                                        session,
                                        source,
                                        scene,
                                        button,
                                        point,
                                        DragKind::ModifierMove,
                                    ),
                                    MouseAction::Resize => after.state matches StateView::Dragging(
                                        session,
                                    ) && just_begun(
                                        session,
                                        source,
                                        scene,
                                        button,
                                        point,
                                        DragKind::ModifierResize,
                                    ),
                                    MouseAction::Ignore => after == actor,
                                }
                            },
                        },
                    }
                },
                _ => after == actor && !taken,
            }
        }),
{
}

/// Finding the source in another space is noted and withdraws the target and
/// whatever was found impossible; finding it where it was changes nothing.
pub proof fn law_change_of_space(
    actor: ActorView,
    session: SessionView,
    space: Option<SpaceId>,
)
    requires
        actor.state == StateView::Dragging(session),
    ensures
        actor.in_space(space).settings == actor.settings,
        actor.in_space(space).next_session_id == actor.next_session_id,
        actor.in_space(space).state matches StateView::Dragging(now) && {
            &&& same_drag(now, session)
            &&& now.pointer == session.pointer && now.scene == session.scene
            &&& now.kind == session.kind
            &&& now.source.last_frame == session.source.last_frame
            &&& now.source.current_space == space
            &&& if space == session.source.current_space {
                now.target == session.target && now.unavailable == session.unavailable
            } else {
                now.target == TargetState::Unset && now.unavailable.len() == 0
            }
        },
{
}

/// Over another scene nothing is known to be impossible, and the pointer, where
/// it is, asks that scene for a drop that is yet to be validated.
pub proof fn law_change_of_scene(
    actor: ActorView,
    session: SessionView,
    before: Option<DropIntent>,
    scene: SceneView,
    measure: MeasureView,
)
    requires
        actor.state == StateView::Dragging(session),
        asks_for(session.target, before),
    ensures
        actor.over(scene, measure).settings == actor.settings,
        actor.over(scene, measure).next_session_id == actor.next_session_id,
        actor.over(scene, measure).state matches StateView::Dragging(now) && {
            let found = question(now, actor.settings, session.pointer, before, measure).intent();
            &&& now.source == session.source && now.button == session.button
            &&& now.pointer == session.pointer && now.anchor_point == session.anchor_point
            &&& now.kind == session.kind
            &&& now.scene == scene && now.unavailable.len() == 0
            &&& match found {
                Some(intent) if can_be_dropped(session) => now.target == TargetState::Candidate(
                    intent,
                ),
                _ => now.target == TargetState::Unset,
            }
        },
{
    let now = actor.over(scene, measure).state->Dragging_0;
    assert(now.unavailable =~= Seq::empty());
}

/// An answer counts only while the pointer asks for the same. A possible drop
/// becomes the target, with its preview; an impossible one is remembered by
/// window, zone and action, and the scene is asked for another.
pub proof fn law_answer_settles_the_intent(
    actor: ActorView,
    session: SessionView,
    before: Option<DropIntent>,
    intent: DropIntent,
    preview: Option<Rect>,
    measure: MeasureView,
)
    requires
        actor.state == StateView::Dragging(session),
        asks_for(session.target, before),
    ensures
        ({
            let after = actor.answered(intent, preview, measure);
            &&& after.settings == actor.settings && after.next_session_id == actor.next_session_id
            &&& after.state matches StateView::Dragging(now) && {
                &&& now.source == session.source && now.button == session.button
                &&& now.pointer == session.pointer && now.anchor_point == session.anchor_point
                &&& now.kind == session.kind && now.scene == session.scene
                &&& !alike(before, Some(intent)) ==> now.target == session.target
                    && now.unavailable == session.unavailable
                &&& alike(before, Some(intent)) ==> match preview {
                    Some(area) => now.unavailable == session.unavailable && now.target
                        == TargetState::Validated(DropTarget { intent, preview_area: area }),
                    None => {
                        &&& now.unavailable == session.unavailable.push(
                            (intent.window, intent.zone, intent.action),
                        )
                        &&& match question(
                            now,
                            actor.settings,
                            session.pointer,
                            None,
                            measure,
                        ).intent() {
                            Some(next) => now.target == TargetState::Candidate(next),
                            None => now.target == TargetState::Unset,
                        }
                    },
                }
            }
        }),
{
}

/// Other settings take hold at once. Disabling drops ends whatever is in
/// progress; another fraction or center action withdraws the target and what
/// was found impossible; otherwise the drag goes on as it is.
pub proof fn law_change_of_settings(actor: ActorView, settings: DragDropSettings)
    ensures
        ({
            let after = actor.configured(settings);
            let same = settings.drop_action == actor.settings.drop_action
                && settings.drop_zone_fraction.same_number(actor.settings.drop_zone_fraction);
            &&& after.settings == settings && after.next_session_id == actor.next_session_id
            &&& !settings.enabled ==> after.state is Idle
            &&& settings.enabled ==> match actor.state {
                StateView::Dragging(session) => after.state matches StateView::Dragging(now) && {
                    &&& now.source == session.source && now.button == session.button
                    &&& now.pointer == session.pointer && now.anchor_point == session.anchor_point
                    &&& now.kind == session.kind && now.scene == session.scene
                    &&& if same {
                        now.target == session.target && now.unavailable == session.unavailable
                    } else {
                        now.target == TargetState::Unset && now.unavailable.len() == 0
                    }
                },
                _ => after.state == actor.state,
            }
        }),
{
}

/// Seeing the window of a native drag at a frame notes frame and space, and
/// makes the drag a move exactly while the size is kept. No other drag is
/// affected.
pub proof fn law_native_drag_follows_the_window(
    actor: ActorView,
    session: SessionView,
    window: WindowId,
    frame: Rect,
    space: Option<SpaceId>,
    size_kept: bool,
)
    requires
        actor.state == StateView::Dragging(session),
    ensures
        ({
            let after = actor.natively_at(window, frame, space, size_kept);
            let its_own = session.source.window == window && (session.kind == DragKind::NativeMove
                || session.kind == DragKind::NativeResize);
            &&& actor.natively_drags(window) <==> its_own
            &&& after.settings == actor.settings && after.next_session_id == actor.next_session_id
            &&& if !its_own {
                after == actor
            } else {
                after.state matches StateView::Dragging(now) && {
                    &&& same_drag(now, session)
                    &&& now.pointer == session.pointer && now.scene == session.scene
                    &&& now.source.last_frame == frame && now.source.current_space == space
                    &&& now.kind == carried(size_kept)
                    &&& if space == session.source.current_space {
                        now.target == session.target && now.unavailable == session.unavailable
                    } else {
                        now.target == TargetState::Unset && now.unavailable.len() == 0
                    }
                }
            }
        }),
{
}

/// The release of the button that a drag was begun with ends it and commits the
/// source, the pointer, the kind and the validated target; the release of the
/// other button does nothing.
pub proof fn law_release_commits_the_drag(
    actor: ActorView,
    session: SessionView,
    button: MouseButton,
)
    requires
        actor.state == StateView::Dragging(session),
    ensures
        actor.held_by(button) <==> session.button == button,
        session.button != button ==> actor.commit(button) is None && actor.released(button)
            == actor,
        session.button == button ==> {
            &&& actor.released(button).state is Idle
            &&& actor.released(button).settings == actor.settings
            &&& actor.released(button).next_session_id == actor.next_session_id
            &&& actor.commit(button) matches Some(commit) && {
                &&& commit.source == session.source
                &&& commit.pointer == session.pointer
                &&& commit.kind == session.kind
                &&& match session.target {
                    TargetState::Validated(target) => commit.target == Some(target),
                    _ => commit.target is None,
                }
            }
        },
{
}

/// A window that goes ends the drag it is the source of, and the native drag
/// announced for it. It leaves every other drag's scene, the others in order,
/// and takes along the target that was on it.
pub proof fn law_window_goes(actor: ActorView, window: WindowId)
    ensures
        ({
            let after = actor.without(window);
            &&& after.settings == actor.settings && after.next_session_id == actor.next_session_id
            &&& match actor.state {
                StateView::Idle => after == actor && !actor.depends_on(window),
                StateView::AwaitingSource(pending) => if pending.kind == (StartKind::Native {
                    window,
                }) {
                    after.state is Idle && actor.depends_on(window)
                } else {
                    after == actor && !actor.depends_on(window)
                },
                StateView::Dragging(session) => if session.source.window == window {
                    after.state is Idle && actor.depends_on(window)
                } else {
                    &&& !actor.depends_on(window)
                    &&& after.state matches StateView::Dragging(now) && {
                        &&& now.source == session.source && now.button == session.button
                        &&& now.pointer == session.pointer
                        &&& now.anchor_point == session.anchor_point
                        &&& now.kind == session.kind && now.unavailable == session.unavailable
                        &&& now.scene.action_override == session.scene.action_override
                        &&& now.scene.targets == session.scene.targets.filter(
                            |t: DragSceneTarget| t.window != window,
                        )
                        &&& match session.target {
                            TargetState::Unset => now.target == TargetState::Unset,
                            TargetState::Candidate(intent) => if intent.window == window {
                                now.target == TargetState::Unset
                            } else {
                                now.target == session.target
                            },
                            TargetState::Validated(target) => if target.intent.window == window {
                                now.target == TargetState::Unset
                            } else {
                                now.target == session.target
                            },
                        }
                    }
                },
            }
        }),
{
}

/// What the operations on a drag answer: whether the space is another one,
/// whether a refused intent leaves another to be answered, whether the drop asked
/// for is another one, which frame is to be written for a drag with the modifier
/// held, and what is given up.
pub proof fn law_answers_of_a_drag(
    actor: ActorView,
    session: SessionView,
    before: Option<DropIntent>,
    space: Option<SpaceId>,
    intent: DropIntent,
    preview: Option<Rect>,
    measure: MeasureView,
    later: ActorView,
    now: SessionView,
    next: Option<DropIntent>,
)
    requires
        actor.state == StateView::Dragging(session),
        asks_for(session.target, before),
        later.state == StateView::Dragging(now),
        asks_for(now.target, next),
    ensures
        actor.changes_space(space) <==> session.source.current_space != space,
        actor.asks_otherwise(later) <==> !alike(before, next),
        actor.asks_again(intent, preview, measure) <==> alike(before, Some(intent)) && preview
            is None && (actor.answered(intent, None, measure).state matches StateView::Dragging(
            refused,
        ) && !(refused.target is Unset)),
        session.kind == DragKind::NativeMove || session.kind == DragKind::NativeResize
            ==> actor.frame_to_write() is None,
        session.kind == DragKind::ModifierMove || session.kind == DragKind::ModifierResize
            ==> actor.frame_to_write() == Some((session.source.window, session.source.last_frame)),
        actor.given_up() matches Some(cancel) && cancel.source == session.source && cancel.kind
            == session.kind,
{
}

/// Without a drag there is nothing to answer.
pub proof fn law_idle_actor_answers_nothing(
    actor: ActorView,
    space: Option<SpaceId>,
    intent: DropIntent,
    preview: Option<Rect>,
    measure: MeasureView,
)
    requires
        !(actor.state is Dragging),
    ensures
        !actor.changes_space(space),
        !actor.asks_again(intent, preview, measure),
        !actor.asks_otherwise(actor),
        actor.frame_to_write() is None,
        actor.given_up() is None,
{
}

/// A native drag of the window that the system drags already goes on; of any
/// other window a new one begins, under the left button, at the center of the
/// window, with the next number used up.
pub proof fn law_native_drag_begins_or_goes_on(
    actor: ActorView,
    source: DragSource,
    scene: SceneView,
    start: NativeStart,
    size_kept: bool,
)
    ensures
        ({
            let after = actor.natively_begun(source, scene, start, size_kept);
            let goes_on = actor.state matches StateView::Dragging(session)
                && session.source.window == source.window && (session.kind == DragKind::NativeMove
                || session.kind == DragKind::NativeResize);
            &&& after.settings == actor.settings
            &&& goes_on ==> after == actor.natively_at(
                source.window,
                source.last_frame,
                source.current_space,
                size_kept,
            )
            &&& !goes_on ==> {
                &&& after.state is Dragging
                &&& just_begun(
                    after.state->Dragging_0,
                    source,
                    scene,
                    MouseButton::Left,
                    start.center,
                    carried(start.size_kept),
                )
                &&& actor.next_session_id < u64::MAX ==> after.next_session_id
                    == actor.next_session_id + 1
                &&& actor.next_session_id == u64::MAX ==> after.next_session_id == 0
            }
        }),
{
}

/// Giving up leaves an idle actor that goes on counting.
pub proof fn law_giving_up(actor: ActorView, session: SessionView, manager: ManagerView)
    ensures
        actor.idle().state is Idle,
        actor.idle().settings == actor.settings,
        actor.idle().next_session_id == actor.next_session_id,
        actor.dragging(session).state == StateView::Dragging(session),
        actor.dragging(session).settings == actor.settings,
        actor.dragging(session).next_session_id == actor.next_session_id,
        manager.at_rest().actor.state is Idle,
        manager.at_rest().actor.settings == manager.actor.settings,
        manager.at_rest().actor.next_session_id == manager.actor.next_session_id,
        manager.at_rest().preview is None,
        manager.at_rest().externally_controlled_window is None,
        manager.with_actor(actor).actor == actor,
        manager.with_actor(actor).preview == manager.preview,
        manager.with_actor(actor).externally_controlled_window
            == manager.externally_controlled_window,
{
}

/// The preview shows the validated target of the drag in progress and nothing
/// else.
pub proof fn law_preview_shows_the_target(manager: ManagerView)
    ensures
        manager.synced().actor == manager.actor,
        manager.synced().externally_controlled_window == manager.externally_controlled_window,
        match manager.actor.state {
            StateView::Dragging(session) => match session.target {
                TargetState::Validated(target) => manager.synced().preview == Some(target),
                _ => manager.synced().preview is None,
            },
            _ => manager.synced().preview is None,
        },
{
}

/// A drag that has just begun asks for nothing; announced and resolved in one
/// step, it is under way with the next number used up.
pub proof fn law_begun_drag(
    source: DragSource,
    button: MouseButton,
    point: Point,
    scene: SceneView,
    kind: DragKind,
    size_kept: bool,
)
    ensures
        just_begun(
            SessionView::begun(source, button, point, scene, kind),
            source,
            scene,
            button,
            point,
            kind,
        ),
        crate::drag::native_kind(size_kept) == carried(size_kept),
{
}

} // verus!
