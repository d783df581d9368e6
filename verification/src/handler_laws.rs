//! What the reactor's answers come to, field by field.

use crate::actor_laws::{can_be_dropped, carried, just_begun};
use crate::apps::AppState;
use crate::drag::{SessionView, StateView, TargetState};
use crate::drag_events::{
    assignment, cancel_outcome, commit_outcome, disturbs_layout, drop_request, joined_outcome,
    left_its_space, passes_after, position_kept, scene_for, scene_targets, store_joined,
};
use crate::drag_manager::ManagerView;
use crate::exact::law_order_is_exact;
use crate::frame_events::{
    answers_write, asked, disposition_of, drag_frame_changed, drag_under, frame_changed_outcome,
    frame_report, kept_position, missed_mouse_up, mouse_reported, records_reported,
    store_frame_changed, store_reported, FrameChangeDisposition, FrameComparison, FrameReport,
    WindowFrameChangedPayload,
};
use crate::geometry::Rect;
use crate::ids::{ProcessId, SpaceId, TransactionId, WindowId, WindowServerId, WorkspaceId};
use crate::layout::{Placement, SnapshotView};
use crate::model::{DragCommit, DragKind, DragSceneTarget, DropTarget, MouseButton};
use crate::outcome::{
    FrameWrite, LayoutCommand, LayoutEvent, OutcomeChange, OutcomeView, Quiet, RaiseView, Screens,
};
use crate::settings::{LayoutMode, MouseState};
use crate::transactions::{last_sent, target_cleared, target_of, TransactionRecord};
use crate::window_events::{
    can_deminiaturize, can_minimize, created_outcome, deminiaturized_outcome, destroyed_outcome,
    drag_destroyed, drag_without, follow_outcome, minimized_outcome, records_created,
    records_destroyed, retitled_outcome, retitles, store_created, store_deminiaturized,
    store_destroyed, store_minimized, store_retitled, MouseMovedPayload, WindowCreatedPayload,
    WindowDeminiaturizedPayload, WindowTitleChangedPayload,
};
use crate::windows::{Admission, StoreView, WindowState, WindowVisibility};
use vstd::prelude::*;

verus! {

/// The outcome asks for nothing beside `change`.
pub open spec fn only(outcome: OutcomeView, change: OutcomeChange) -> bool {
    &&& outcome.change == change
    &&& outcome.layout_events.len() == 0 && outcome.layout_commands.len() == 0
    &&& asks_no_more(outcome)
    &&& outcome.frame_write is None && !outcome.is_resize && !outcome.dispatch_mouse_up
    &&& outcome.raise_request is None
}

/// The outcome asks neither for passes, nor for a new window to be taken in, nor
/// for titles or rules.
pub open spec fn asks_no_more(outcome: OutcomeView) -> bool {
    outcome.arrange_passes is None && outcome.created_window is None && outcome.title_broadcast
        is None && outcome.reapply_app_rules.len() == 0
}

/// The id that the window server has for a window.
pub open spec fn server_number(store: StoreView, window: WindowId) -> Option<WindowServerId> {
    if store.windows.dom().contains(window) {
        store.windows[window].info.sys_id
    } else {
        None
    }
}

/// Two stores hold the same of everything but the windows themselves.
pub open spec fn same_server(a: StoreView, b: StoreView) -> bool {
    a.server_ids == b.server_ids && a.server_infos == b.server_infos && a.server_spaces
        == b.server_spaces && a.observed == b.observed && a.visible == b.visible
}

/// What an outcome starts as, and what is added to it.
pub proof fn law_outcomes_hold_what_was_added(
    outcome: OutcomeView,
    event: LayoutEvent,
    command: LayoutCommand,
    window: WindowId,
    frame: Rect,
    flag: bool,
    other: bool,
    request: RaiseView,
)
    ensures
        only(OutcomeView::unconcerned(), OutcomeChange::Unconcerned),
        only(OutcomeView::no_change(), OutcomeChange::Nothing),
        only(OutcomeView::layout_changed(flag), OutcomeChange::Layout { resize: flag }),
        only(
            OutcomeView::membership_changed(flag, other),
            OutcomeChange::Membership { removed: flag, added: other },
        ),
        outcome.event(event) == (OutcomeView {
            layout_events: outcome.layout_events + seq![event],
            ..outcome
        }),
        outcome.command(command) == (OutcomeView {
            layout_commands: outcome.layout_commands + seq![command],
            ..outcome
        }),
        outcome.writing(window, frame, flag) == (OutcomeView {
            frame_write: Some(FrameWrite { window, frame, restores: flag }),
            ..outcome
        }),
        outcome.raise(request) == (OutcomeView { raise_request: Some(request), ..outcome }),
{
    assert(outcome.layout_events.push(event) =~= outcome.layout_events + seq![event]);
    assert(outcome.layout_commands.push(command) =~= outcome.layout_commands + seq![command]);
}

/// What the store says of a window.
pub proof fn law_store_answers(store: StoreView, window: WindowId)
    ensures
        store.knows(window) <==> store.windows.dom().contains(window),
        store.server_id(window) == server_number(store, window),
        store.admits(window) <==> store.windows.dom().contains(window)
            && store.windows[window].admission.admitted,
{
}

/// What changes when a window's frame or title is noted.
pub proof fn law_frames_and_titles_are_noted(
    store: StoreView,
    window: WindowId,
    frame: Rect,
    title: String,
    other: WindowId,
)
    requires
        store.windows.dom().contains(window),
        other != window,
    ensures
        ({
            let framed = store.framed(window, frame);
            let titled = store.titled(window, title);
            &&& framed.windows.dom() == store.windows.dom()
            &&& framed.windows[window].frame_monotonic == frame
            &&& framed.windows[window].info == store.windows[window].info
            &&& framed.windows[window].admission == store.windows[window].admission
            &&& framed.windows[other] == store.windows[other]
            &&& framed.visibility == store.visibility && same_server(framed, store)
            &&& titled.windows.dom() == store.windows.dom()
            &&& titled.windows[window].info.title == title
            &&& titled.windows[window].info.frame == store.windows[window].info.frame
            &&& titled.windows[window].info.sys_id == store.windows[window].info.sys_id
            &&& titled.windows[window].info.is_minimized == store.windows[window].info.is_minimized
            &&& titled.windows[window].frame_monotonic == store.windows[window].frame_monotonic
            &&& titled.windows[window].admission == store.windows[window].admission
            &&& titled.windows[other] == store.windows[other]
            &&& titled.visibility == store.visibility && same_server(titled, store)
        }),
{
    assert(store.framed(window, frame).windows.dom() =~= store.windows.dom());
    assert(store.titled(window, title).windows.dom() =~= store.windows.dom());
}

/// What the engine's answers say of spaces, windows and workspaces.
pub proof fn law_snapshot_answers(
    layout: SnapshotView,
    space: SpaceId,
    window: WindowId,
    workspace: WorkspaceId,
)
    ensures
        layout.floats(window) <==> layout.floating.contains(window),
        layout.drop_action(space) is Some <==> layout.drop_actions.dom().contains(space),
        layout.drop_action(space) matches Some(action) ==> action == layout.drop_actions[space],
        layout.active(space) is Some <==> layout.active_workspaces.dom().contains(space),
        layout.active(space) matches Some(found) ==> found == layout.active_workspaces[space],
        layout.workspace(space, window) is Some <==> layout.workspaces.dom().contains(
            Placement { space, window },
        ),
        layout.workspace(space, window) matches Some(found) ==> found == layout.workspaces[
            Placement { space, window }],
        layout.mode(workspace) is Some <==> layout.modes.dom().contains(workspace),
        layout.mode(workspace) matches Some(found) ==> found == layout.modes[workspace],
        layout.drop_scenes.dom().contains(Placement { space, window }) ==> layout.drop_windows(
            space,
            window,
        ) == layout.drop_scenes[Placement { space, window }]@,
        !layout.drop_scenes.dom().contains(Placement { space, window }) ==> layout.drop_windows(
            space,
            window,
        ).len() == 0,
        ({
            let blank = SnapshotView::blank();
            &&& !blank.floats(window) && blank.drop_action(space) is None
            &&& blank.active(space) is None && blank.workspace(space, window) is None
            &&& blank.mode(workspace) is None && blank.drop_windows(space, window).len() == 0
        }),
{
}

/// What is known of the writes to a window: the last one sent, or else the first
/// number of all; the frame it is to have; and that nothing more is waited for
/// once that is cleared, while the last write and all other windows stay.
pub proof fn law_writes_are_remembered(
    records: Map<WindowServerId, TransactionRecord>,
    window: WindowServerId,
    other: WindowServerId,
)
    requires
        other != window,
    ensures
        records.dom().contains(window) ==> last_sent(records, window) == records[window].last_sent
            && target_of(records, window) == records[window].target,
        !records.dom().contains(window) ==> last_sent(records, window).raw == 0 && target_of(
            records,
            window,
        ) is None,
        ({
            let cleared = target_cleared(records, window);
            &&& cleared.dom() == records.dom()
            &&& target_of(cleared, window) is None
            &&& last_sent(cleared, window) == last_sent(records, window)
            &&& cleared[other] == records[other]
        }),
{
    assert(target_cleared(records, window).dom() =~= records.dom());
}

/// The drop that is asked for is the committed one: its target, its action, its
/// space and its source. It is asked for exactly when it is in the space where
/// the source is, and both windows are known.
pub proof fn law_asked_drop_is_the_committed_one(store: StoreView, commit: DragCommit)
    ensures
        commit.target is None ==> drop_request(store, commit) is None,
        commit.target matches Some(target) ==> {
            let asked = drop_request(store, commit);
            &&& asked is Some <==> commit.source.current_space == Some(target.intent.space)
                && store.windows.dom().contains(commit.source.window)
                && store.windows.dom().contains(target.intent.window)
            &&& asked matches Some(request) ==> {
                &&& request.source == commit.source.window
                &&& request.target == target.intent.window
                &&& request.space == target.intent.space
                &&& request.action == target.intent.action
            }
        },
{
}

/// Releasing the button of a drag with a validated target asks for just that
/// drop: the previewed window, space and action.
pub proof fn law_release_asks_for_the_previewed_drop(
    store: StoreView,
    drag: ManagerView,
    session: SessionView,
    target: DropTarget,
    button: MouseButton,
)
    requires
        drag.actor.state == StateView::Dragging(session),
        session.button == button,
        session.target == TargetState::Validated(target),
        session.source.current_space == Some(target.intent.space),
        store.windows.dom().contains(session.source.window),
        store.windows.dom().contains(target.intent.window),
    ensures
        drag.actor.commit(button) matches Some(commit) && (drop_request(store, commit) matches Some(
            request,
        ) && {
            &&& request.source == session.source.window
            &&& request.target == target.intent.window
            &&& request.space == target.intent.space
            &&& request.action == target.intent.action
        }),
{
}

/// A drag scene takes the windows one by one: a known window other than the
/// source is a target, at its newest frame and in the space of the scene; any
/// other is left out.
pub proof fn law_scene_takes_the_windows_in_order(
    store: StoreView,
    windows: Seq<WindowId>,
    source: WindowId,
    space: SpaceId,
    next: WindowId,
)
    ensures
        scene_targets(store, Seq::empty(), source, space).len() == 0,
        ({
            let before = scene_targets(store, windows, source, space);
            let after = scene_targets(store, windows.push(next), source, space);
            if next != source && store.windows.dom().contains(next) {
                after == before.push(
                    DragSceneTarget {
                        window: next,
                        space,
                        frame: store.windows[next].frame_monotonic,
                    },
                )
            } else {
                after == before
            }
        }),
{
    reveal(Seq::filter);
    let keep = crate::drag_events::others_known(store, source);
    let show = crate::drag_events::at_newest_frame(store, space);
    let longer = windows.push(next);
    assert(longer.drop_last() =~= windows);
    assert(longer.last() == next);
    assert(Seq::<WindowId>::empty().filter(keep).map_values(show).len() == 0);
    if keep(next) {
        assert(longer.filter(keep) == windows.filter(keep).push(next));
        assert(windows.filter(keep).push(next).map_values(show) =~= windows.filter(keep).map_values(
            show,
        ).push(show(next)));
    } else {
        assert(longer.filter(keep) == windows.filter(keep));
    }
}

/// The scene of a drag is made of the windows that the engine names for its
/// source, under the action that the engine gives the space.
pub proof fn law_scene_is_the_engines(
    store: StoreView,
    layout: SnapshotView,
    source: WindowId,
    space: SpaceId,
)
    ensures
        ({
            let scene = scene_for(store, layout, source, space);
            let place = Placement { space, window: source };
            &&& layout.drop_actions.dom().contains(space) ==> scene.action_override == Some(
                layout.drop_actions[space],
            )
            &&& !layout.drop_actions.dom().contains(space) ==> scene.action_override is None
            &&& layout.drop_scenes.dom().contains(place) ==> scene.targets == scene_targets(
                store,
                layout.drop_scenes[place]@,
                source,
                space,
            )
            &&& !layout.drop_scenes.dom().contains(place) ==> scene.targets.len() == 0
        }),
{
    reveal(Seq::filter);
}

/// What giving up a drag asks for: a new layout for a tiled window that was moved
/// or resized with the modifier held, and the original frame back for a floating
/// one that is elsewhere. A window that the system carries, or that is where it
/// was, asks for nothing.
pub proof fn law_given_up_drag_is_undone(drag: ManagerView)
    ensures
        ({
            let outcome = cancel_outcome(drag);
            match drag.actor.state {
                StateView::Dragging(session) => if session.kind == DragKind::NativeMove
                    || session.kind == DragKind::NativeResize {
                    only(outcome, OutcomeChange::Nothing)
                } else if session.source.tiled {
                    only(outcome, OutcomeChange::Layout { resize: false })
                } else if session.source.last_frame.same_frame(session.source.origin_frame) {
                    only(outcome, OutcomeChange::Nothing)
                } else {
                    &&& only(OutcomeView { frame_write: None, ..outcome }, OutcomeChange::Nothing)
                    &&& outcome.frame_write matches Some(write) && {
                        &&& write.window == session.source.window
                        &&& write.frame == session.source.origin_frame
                        &&& write.restores
                    }
                },
                _ => only(outcome, OutcomeChange::Nothing),
            }
        }),
{
}

/// Two finite frames are the same exactly when origin and size are, as exact
/// numbers.
pub proof fn law_same_frames_are_exact(a: Rect, b: Rect)
    requires
        a.finite() && b.finite(),
    ensures
        a.same_frame(b) <==> {
            &&& a.origin.x.units() == b.origin.x.units()
            &&& a.origin.y.units() == b.origin.y.units()
            &&& a.size.width.units() == b.size.width.units()
            &&& a.size.height.units() == b.size.height.units()
        },
{
    law_order_is_exact(a.origin.x, b.origin.x);
    law_order_is_exact(a.origin.y, b.origin.y);
    law_order_is_exact(a.size.width, b.size.width);
    law_order_is_exact(a.size.height, b.size.height);
}

/// What a committed drag asks for first: a new layout, and where a tiled window
/// was resized with the modifier held also that the engine hears of it, from the
/// original frame to the last.
pub proof fn law_committed_resize_is_told(commit: DragCommit, screens: Screens)
    ensures
        ({
            let outcome = commit_outcome(commit, screens);
            let silent = OutcomeView { layout_events: Seq::empty(), ..outcome };
            &&& only(silent, OutcomeChange::Layout { resize: false })
            &&& if commit.kind == DragKind::ModifierResize && commit.source.tiled {
                outcome.layout_events == seq![
                    LayoutEvent::WindowResized {
                        wid: commit.source.window,
                        old_frame: commit.source.origin_frame,
                        new_frame: commit.source.last_frame,
                        screens,
                    },
                ]
            } else {
                outcome.layout_events.len() == 0
            }
        }),
{
}

/// What joining the space where a drag ended amounts to. In another space than
/// it started in, the window leaves the old one, if it had one, and joins the
/// new one, if there is one and the window is admitted: it is put there, it
/// counts as visible, and it goes to the active workspace. In the same space
/// nothing of this happens.
pub proof fn law_window_joins_its_final_space(
    store: StoreView,
    layout: SnapshotView,
    commit: DragCommit,
    final_space: Option<SpaceId>,
    outcome: OutcomeView,
)
    ensures
        ({
            let window = commit.source.window;
            let left = commit.source.origin_space != final_space;
            let admitted = store.windows.dom().contains(window)
                && store.windows[window].admission.admitted;
            let after = store_joined(store, commit, final_space);
            let assigned = assignment(store, layout, commit, final_space);
            let told = joined_outcome(outcome, store, commit, final_space);
            let leaving = if left && commit.source.origin_space is Some {
                seq![LayoutEvent::WindowRemoved(window)]
            } else {
                Seq::empty()
            };
            &&& left_its_space(commit, final_space) <==> left
            &&& after.windows == store.windows && after.visibility == store.visibility
            &&& after.server_ids == store.server_ids && after.server_infos == store.server_infos
            &&& after.observed == store.observed
            &&& told == (OutcomeView { layout_events: told.layout_events, ..outcome })
            &&& match final_space {
                Some(space) if left && admitted => {
                    &&& told.layout_events == outcome.layout_events + leaving + seq![
                        LayoutEvent::WindowAdded(space, window),
                    ]
                    &&& if layout.active_workspaces.dom().contains(space) {
                        assigned == Some(
                            LayoutCommand::AssignWindow {
                                space,
                                window,
                                workspace: layout.active_workspaces[space],
                            },
                        )
                    } else {
                        assigned is None
                    }
                    &&& match store.windows[window].info.sys_id {
                        Some(id) => after.server_spaces == store.server_spaces.insert(id, space)
                            && after.visible == store.visible.insert(id),
                        None => after.server_spaces == store.server_spaces && after.visible
                            == store.visible,
                    }
                },
                _ => {
                    &&& told.layout_events == outcome.layout_events + leaving
                    &&& assigned is None
                    &&& after == store
                },
            }
        }),
{
    let window = commit.source.window;
    let told = joined_outcome(outcome, store, commit, final_space);
    let gone = LayoutEvent::WindowRemoved(window);
    assert(outcome.layout_events.push(gone) =~= outcome.layout_events + seq![gone]);
    assert(outcome.layout_events + Seq::<LayoutEvent>::empty() =~= outcome.layout_events);
    if let Some(space) = final_space {
        let added = LayoutEvent::WindowAdded(space, window);
        assert(outcome.layout_events.push(gone).push(added) =~= outcome.layout_events + seq![gone]
            + seq![added]);
        assert(outcome.layout_events.push(added) =~= outcome.layout_events
            + Seq::<LayoutEvent>::empty() + seq![added]);
    }
}

/// A floating window keeps the frame it was dragged to as its position in the
/// workspace it has in the final space, or else in the active one; a position in
/// another space is forgotten first. Tiled windows keep none.
pub proof fn law_floating_window_keeps_its_position(
    layout: SnapshotView,
    commit: DragCommit,
    final_space: Option<SpaceId>,
    outcome: OutcomeView,
)
    ensures
        ({
            let window = commit.source.window;
            let after = position_kept(outcome, layout, commit, final_space);
            let forgetting = if commit.source.origin_space != final_space {
                seq![LayoutCommand::RemoveFloatingPosition { window }]
            } else {
                Seq::empty()
            };
            &&& after == (OutcomeView { layout_commands: after.layout_commands, ..outcome })
            &&& match final_space {
                Some(space) if layout.floating.contains(window) => {
                    let place = Placement { space, window };
                    let frame = commit.source.last_frame;
                    if layout.workspaces.dom().contains(place) {
                        after.layout_commands == outcome.layout_commands + forgetting + seq![
                            LayoutCommand::StoreFloatingPosition {
                                space,
                                workspace: layout.workspaces[place],
                                window,
                                frame,
                            },
                        ]
                    } else if layout.active_workspaces.dom().contains(space) {
                        after.layout_commands == outcome.layout_commands + forgetting + seq![
                            LayoutCommand::StoreFloatingPosition {
                                space,
                                workspace: layout.active_workspaces[space],
                                window,
                                frame,
                            },
                        ]
                    } else {
                        after.layout_commands == outcome.layout_commands + forgetting
                    }
                },
                _ => after == outcome,
            }
        }),
{
    let window = commit.source.window;
    let gone = LayoutCommand::RemoveFloatingPosition { window };
    let commands = outcome.layout_commands;
    assert(commands.push(gone) =~= commands + seq![gone]);
    assert(commands + Seq::<LayoutCommand>::empty() =~= commands);
    assert forall|stored: LayoutCommand| #[trigger]
        commands.push(gone).push(stored) == commands + seq![gone] + seq![stored] by {
        assert(commands.push(gone).push(stored) =~= commands + seq![gone] + seq![stored]);
    }
    assert forall|stored: LayoutCommand| #[trigger]
        commands.push(stored) == commands + Seq::<LayoutCommand>::empty() + seq![stored] by {
        assert(commands.push(stored) =~= commands + Seq::<LayoutCommand>::empty() + seq![stored]);
    }
}

/// A write to the window is waited for, and the report names one.
pub open spec fn awaited(
    store: StoreView,
    records: Map<WindowServerId, TransactionRecord>,
    window: WindowId,
    last_seen: Option<TransactionId>,
) -> bool {
    &&& store.windows.dom().contains(window)
    &&& last_seen is Some
    &&& store.windows[window].info.sys_id matches Some(id) && records.dom().contains(id)
        && records[id].target is Some
}

/// How a reported frame is taken: that of an unknown window not at all, and none
/// while mission control is active; one that names another write than the last
/// while a write is waited for is stale; one that names the last is its
/// acknowledgement, unless the mouse is down; beyond that it was requested or
/// is somebody else's doing.
pub proof fn law_reports_are_told_apart(
    store: StoreView,
    records: Map<WindowServerId, TransactionRecord>,
    window: WindowId,
    last_seen: Option<TransactionId>,
    requested: bool,
    mouse: Option<MouseState>,
    mission_control_active: bool,
)
    ensures
        ({
            let report = frame_report(
                store,
                records,
                window,
                last_seen,
                requested,
                mouse,
                mission_control_active,
            );
            let waiting = awaited(store, records, window, last_seen);
            let current = waiting && last_seen == Some(
                records[store.windows[window].info.sys_id->0].last_sent,
            );
            let known = store.windows.dom().contains(window);
            let down = mouse == Some(MouseState::Down);
            &&& answers_write(store, records, window, last_seen) <==> waiting
            &&& report is Unknown <==> !known
            &&& report is MissionControl <==> known && mission_control_active
            &&& report is Stale <==> known && !mission_control_active && waiting && !current
            &&& report is Acknowledged <==> known && !mission_control_active && current && !down
            &&& report is Requested <==> known && !mission_control_active && (!waiting || (current
                && down)) && requested
            &&& report is Foreign <==> known && !mission_control_active && (!waiting || (current
                && down)) && !requested
        }),
{
}

/// What a report changes of the writes that are waited for: an acknowledgement at
/// the target, a requested frame and a foreign one that breaks into a write end
/// the waiting at the window; everything else leaves it. Other windows, and what
/// was last sent, are never touched.
pub proof fn law_reports_end_the_waiting(
    store: StoreView,
    records: Map<WindowServerId, TransactionRecord>,
    window: WindowId,
    last_seen: Option<TransactionId>,
    report: FrameReport,
    at_target: bool,
    id: WindowServerId,
)
    ensures
        ({
            let after = records_reported(store, records, window, last_seen, report, at_target);
            let ends = match report {
                FrameReport::Acknowledged => at_target,
                FrameReport::Requested => true,
                FrameReport::Foreign => awaited(store, records, window, last_seen),
                FrameReport::Unknown | FrameReport::MissionControl | FrameReport::Stale => false,
            };
            &&& after.dom() == records.dom()
            &&& records.dom().contains(id) ==> {
                &&& after[id].last_sent == records[id].last_sent
                &&& if ends && server_number(store, window) == Some(id) {
                    after[id].target is None
                } else {
                    after[id].target == records[id].target
                }
            }
        }),
{
    let after = records_reported(store, records, window, last_seen, report, at_target);
    assert(after.dom() =~= records.dom());
}

/// When the state of the mouse is looked up: never where it is known, never under
/// mission control; always for acknowledgements, foreign frames and whatever
/// answers a write; and else where a drag is in progress.
pub proof fn law_mouse_is_asked_where_it_counts(
    drag: ManagerView,
    mouse: Option<MouseState>,
    reported: Option<MouseState>,
    report: FrameReport,
    answers: bool,
)
    ensures
        ({
            let after = mouse_reported(drag, mouse, reported, report, answers);
            let asks = match report {
                FrameReport::MissionControl => false,
                FrameReport::Acknowledged | FrameReport::Foreign => true,
                FrameReport::Requested => answers || !(drag.actor.state is Idle),
                FrameReport::Unknown | FrameReport::Stale => !(drag.actor.state is Idle),
            };
            &&& mouse is Some ==> after == mouse && asked(mouse, reported) == mouse
            &&& mouse is None && asks ==> after == reported
            &&& mouse is None && !asks ==> after is None
            &&& mouse is None ==> asked(mouse, reported) == reported
        }),
{
}

/// A frame change that the reactor has to do with: the window is known, one of
/// the two spaces is active, and the frame is another one.
pub open spec fn matters(
    store: StoreView,
    payload: WindowFrameChangedPayload,
    seen: FrameComparison,
) -> bool {
    &&& store.windows.dom().contains(payload.window)
    &&& payload.old_space_active || payload.new_space_active
    &&& !seen.unchanged
}

/// The window of a drag with the modifier held.
pub open spec fn is_ours(drag: ManagerView, window: WindowId) -> bool {
    drag.actor.state matches StateView::Dragging(session) && session.source.window == window && (
    session.kind == DragKind::ModifierMove || session.kind == DragKind::ModifierResize)
}

/// The mouse is down, or some drag is announced or in progress.
pub open spec fn under_drag(drag: ManagerView, payload: WindowFrameChangedPayload) -> bool {
    payload.mouse_state == Some(MouseState::Down) || !(drag.actor.state is Idle)
}

/// A window that moves while the mouse is down, or while another drag is in
/// progress, begins a native drag of its own. The source is that window, from
/// the frame known before to the one it has now, from the old space to the new
/// one, and it is tiled exactly when the layout does not float it. The drag is a
/// move while the size is kept. Its scene is the space's where a drop can come
/// of it, and else empty; only a tiled window that is moved within its space can
/// be dropped.
pub proof fn law_native_drag_begins_with_the_window(
    store: StoreView,
    layout: SnapshotView,
    drag: ManagerView,
    payload: WindowFrameChangedPayload,
    seen: FrameComparison,
)
    requires
        matters(store, payload, seen),
        under_drag(drag, payload),
        drag.actor.state matches StateView::Dragging(session) ==> session.source.window
            != payload.window,
    ensures
        ({
            let after = drag_frame_changed(store, layout, drag, payload, seen);
            let tiled = !layout.floating.contains(payload.window);
            &&& after.actor.settings == drag.actor.settings
            &&& drag.actor.next_session_id < u64::MAX ==> after.actor.next_session_id
                == drag.actor.next_session_id + 1
            &&& after.preview is None
            &&& after.externally_controlled_window == (if tiled {
                Some(payload.window)
            } else {
                drag.externally_controlled_window
            })
            &&& after.actor.state matches StateView::Dragging(session) && {
                &&& session.source.window == payload.window
                &&& session.source.origin_frame == store.windows[payload.window].frame_monotonic
                &&& session.source.last_frame == payload.new_frame
                &&& session.source.origin_space == payload.old_space
                &&& session.source.current_space == payload.new_space
                &&& session.source.tiled <==> tiled
                &&& just_begun(
                    session,
                    session.source,
                    session.scene,
                    MouseButton::Left,
                    seen.center,
                    carried(seen.size_kept),
                )
                &&& can_be_dropped(session) <==> tiled && seen.size_kept && payload.old_space
                    == payload.new_space
                &&& match payload.new_space {
                    Some(space) if tiled && seen.size_kept => session.scene == scene_for(
                        store.framed(payload.window, payload.new_frame),
                        layout,
                        payload.window,
                        space,
                    ),
                    _ => session.scene.targets.len() == 0 && session.scene.action_override is None,
                }
            }
        }),
{
}

/// A native drag follows its window: the frame and the space are noted, the drag
/// is a move exactly while the window has its original size, and the origin and
/// whether it is tiled stay.
pub proof fn law_native_drag_goes_on_with_the_window(
    store: StoreView,
    layout: SnapshotView,
    drag: ManagerView,
    payload: WindowFrameChangedPayload,
    seen: FrameComparison,
    session: SessionView,
)
    requires
        matters(store, payload, seen),
        drag.actor.state == StateView::Dragging(session),
        session.source.window == payload.window,
        session.kind == DragKind::NativeMove || session.kind == DragKind::NativeResize,
    ensures
        ({
            let after = drag_frame_changed(store, layout, drag, payload, seen);
            let same = session.source.current_space == payload.new_space;
            &&& after.actor.settings == drag.actor.settings
            &&& after.actor.next_session_id == drag.actor.next_session_id
            &&& after.externally_controlled_window == (if !layout.floating.contains(
                payload.window,
            ) {
                Some(payload.window)
            } else {
                drag.externally_controlled_window
            })
            &&& after.actor.state matches StateView::Dragging(now) && {
                &&& now.source.window == session.source.window
                &&& now.source.origin_frame == session.source.origin_frame
                &&& now.source.origin_space == session.source.origin_space
                &&& now.source.tiled == session.source.tiled
                &&& now.source.last_frame == payload.new_frame
                &&& now.source.current_space == payload.new_space
                &&& now.kind == carried(seen.session_size_kept)
                &&& now.button == session.button && now.pointer == session.pointer
                &&& now.anchor_point == session.anchor_point && now.scene == session.scene
                &&& same ==> now.target == session.target && now.unavailable == session.unavailable
                &&& !same ==> now.target == TargetState::Unset && now.unavailable.len() == 0
                &&& match now.target {
                    TargetState::Validated(target) => after.preview == Some(target),
                    _ => after.preview is None,
                }
            }
        }),
{
}

/// A frame that was written for a drag with the modifier held, a change without
/// the mouse or a drag, and one the reactor has nothing to do with, leave the
/// drag alone.
pub proof fn law_other_frame_changes_leave_the_drag(
    store: StoreView,
    layout: SnapshotView,
    drag: ManagerView,
    payload: WindowFrameChangedPayload,
    seen: FrameComparison,
)
    requires
        !matters(store, payload, seen) || is_ours(drag, payload.window) || !under_drag(
            drag,
            payload,
        ),
    ensures
        drag_frame_changed(store, layout, drag, payload, seen) == drag,
{
}

/// The window stays where it is assigned: it scrolled out of sight, or it is on
/// its way to the space it is assigned to and was seen elsewhere.
pub open spec fn stays_assigned(payload: WindowFrameChangedPayload) -> bool {
    payload.keep_assigned_for_scrolling || (payload.pending_target_space is Some
        && payload.assigned_space == payload.pending_target_space && payload.new_space
        != payload.pending_target_space)
}

/// The space changes hands: outside of any drag, the window is in another space
/// and is not to stay where it is assigned.
pub open spec fn moves_over(drag: ManagerView, payload: WindowFrameChangedPayload) -> bool {
    !under_drag(drag, payload) && payload.old_space != payload.new_space && !stays_assigned(payload)
}

/// What a frame change does to the store. The frame is noted whenever the change
/// matters. A window that moves over to another space is noted there and counts
/// as visible; one in no space is noted in none.
pub proof fn law_frame_change_is_noted(
    store: StoreView,
    drag: ManagerView,
    payload: WindowFrameChangedPayload,
    seen: FrameComparison,
)
    ensures
        ({
            let after = store_frame_changed(store, drag, payload, seen);
            let window = payload.window;
            let id = server_number(store, window);
            let over = matters(store, payload, seen) && !is_ours(drag, window) && moves_over(
                drag,
                payload,
            );
            &&& !matters(store, payload, seen) ==> after == store
            &&& matters(store, payload, seen) ==> {
                &&& after.windows == store.windows.insert(
                    window,
                    WindowState {
                        info: store.windows[window].info,
                        frame_monotonic: payload.new_frame,
                        admission: store.windows[window].admission,
                    },
                )
                &&& after.visibility == store.visibility && after.server_ids == store.server_ids
                &&& after.server_infos == store.server_infos && after.observed == store.observed
            }
            &&& match (id, payload.new_space) {
                (Some(id), Some(space)) if over => after.server_spaces
                    == store.server_spaces.insert(id, space) && after.visible
                    == store.visible.insert(id),
                (Some(id), None) if over => after.server_spaces == store.server_spaces.remove(id)
                    && after.visible == store.visible,
                _ => after.server_spaces == store.server_spaces && after.visible == store.visible,
            }
        }),
{
}

/// The position that a frame change keeps: in a space that the window is assigned
/// to, or else was in, and is still in, under a workspace that floats its
/// windows. Nothing else is kept.
pub proof fn law_floating_workspace_keeps_positions(
    layout: SnapshotView,
    payload: WindowFrameChangedPayload,
)
    ensures
        ({
            let home = match payload.assigned_space {
                Some(space) => Some(space),
                None => payload.old_space,
            };
            let kept = kept_position(layout, payload);
            match home {
                Some(space) if payload.new_space == Some(space) => {
                    let place = Placement { space, window: payload.window };
                    let workspace = layout.workspaces[place];
                    if layout.workspaces.dom().contains(place) && layout.modes.dom().contains(
                        workspace,
                    ) && layout.modes[workspace] == LayoutMode::Floating {
                        kept == Some(
                            LayoutCommand::StoreFloatingPosition {
                                space,
                                workspace,
                                window: payload.window,
                                frame: payload.new_frame,
                            },
                        )
                    } else {
                        kept is None
                    }
                },
                _ => kept is None,
            }
        }),
{
}

/// What a frame change asks for, case by case. One that the reactor has nothing
/// to do with is passed on, and one written for a drag asks for nothing. Any
/// other keeps the position it is to keep and asks for a new layout. During a
/// drag the engine hears of a new size, and a release that was missed is made up
/// for. Outside of one, a window that moves over leaves its space and joins the
/// new one, and a new size within an active space is a resize that the engine
/// hears of.
#[verifier::rlimit(40)]
pub proof fn law_frame_change_asks_for(
    store: StoreView,
    layout: SnapshotView,
    drag: ManagerView,
    payload: WindowFrameChangedPayload,
    seen: FrameComparison,
)
    ensures
        ({
            let outcome = frame_changed_outcome(store, layout, drag, payload, seen);
            let window = payload.window;
            let resized = seq![
                LayoutEvent::WindowResized {
                    wid: window,
                    old_frame: store.windows[window].frame_monotonic,
                    new_frame: payload.new_frame,
                    screens: payload.screens,
                },
            ];
            let kept = match kept_position(layout, payload) {
                Some(command) => seq![command],
                None => Seq::empty(),
            };
            let quiet = !outcome.is_resize && !outcome.dispatch_mouse_up;
            let admitted = store.windows.dom().contains(window)
                && store.windows[window].admission.admitted;
            if !matters(store, payload, seen) {
                only(outcome, OutcomeChange::Unconcerned)
            } else if is_ours(drag, window) {
                only(outcome, OutcomeChange::Nothing)
            } else {
                &&& outcome.change == (OutcomeChange::Layout { resize: false })
                &&& asks_no_more(outcome) && outcome.frame_write is None
                    && outcome.raise_request is None
                &&& if under_drag(drag, payload) {
                    &&& outcome.layout_commands == kept
                    &&& !outcome.is_resize
                    &&& outcome.dispatch_mouse_up <==> payload.mouse_state == Some(MouseState::Up)
                    &&& outcome.layout_events == (if !seen.size_kept && payload.active_resize_space
                        is Some {
                        resized
                    } else {
                        Seq::empty()
                    })
                } else if moves_over(drag, payload) {
                    &&& quiet
                    &&& match payload.new_space {
                        Some(space) if payload.new_space_active && admitted => {
                            &&& outcome.layout_events == seq![
                                LayoutEvent::WindowRemovedPreserveFloating(window),
                                LayoutEvent::WindowAdded(space, window),
                            ]
                            &&& outcome.layout_commands == (
                            if layout.active_workspaces.dom().contains(space) {
                                kept + seq![
                                    LayoutCommand::AssignWindow {
                                        space,
                                        window,
                                        workspace: layout.active_workspaces[space],
                                    },
                                ]
                            } else {
                                kept
                            })
                        },
                        _ => outcome.layout_commands == kept && outcome.layout_events == seq![
                            LayoutEvent::WindowRemovedPreserveFloating(window),
                        ],
                    }
                } else if payload.old_space == payload.new_space && !seen.size_kept
                    && payload.old_space_active {
                    &&& outcome.is_resize && !outcome.dispatch_mouse_up
                    &&& outcome.layout_commands == kept && outcome.layout_events == resized
                } else {
                    quiet && outcome.layout_commands == kept && outcome.layout_events.len() == 0
                }
            }
        }),
{
    let outcome = frame_changed_outcome(store, layout, drag, payload, seen);
    let resized = LayoutEvent::WindowResized {
        wid: payload.window,
        old_frame: store.windows[payload.window].frame_monotonic,
        new_frame: payload.new_frame,
        screens: payload.screens,
    };
    assert(Seq::<LayoutEvent>::empty().push(resized) =~= seq![resized]);
    if let Some(command) = kept_position(layout, payload) {
        assert(Seq::<LayoutCommand>::empty().push(command) =~= seq![command]);
    }
    if matters(store, payload, seen) && !is_ours(drag, payload.window) && moves_over(
        drag,
        payload,
    ) {
        if let Some(space) = payload.new_space {
            if layout.active_workspaces.dom().contains(space) {
                let assigned = LayoutCommand::AssignWindow {
                    space,
                    window: payload.window,
                    workspace: layout.active_workspaces[space],
                };
                let kept = match kept_position(layout, payload) {
                    Some(command) => seq![command],
                    None => Seq::empty(),
                };
                assert(kept.push(assigned) =~= kept + seq![assigned]);
            }
        }
    }
}

/// What is known once a window was created: the window as described, at its
/// frame and as it was judged; whose the server's id is; what the server says of
/// it; and that neither is merely observed any more. A first write to its frame
/// counts as sent and waited for. Nothing else changes.
pub proof fn law_created_window_is_known(
    store: StoreView,
    records: Map<WindowServerId, TransactionRecord>,
    payload: WindowCreatedPayload,
    admission: Admission,
    id: WindowServerId,
)
    ensures
        ({
            let after = store_created(store, payload, admission);
            let sent = records_created(records, payload.window);
            let own = payload.window.sys_id == Some(id);
            let told = payload.window_server_info matches Some(info) && info.id == id;
            &&& after.windows == store.windows.insert(
                payload.window_id,
                WindowState {
                    info: payload.window,
                    frame_monotonic: payload.window.frame,
                    admission,
                },
            )
            &&& after.visibility == store.visibility && after.server_spaces == store.server_spaces
            &&& after.visible == store.visible
            &&& own ==> after.server_ids.dom().contains(id) && after.server_ids[id]
                == payload.window_id
            &&& !own ==> after.server_ids.dom().contains(id) == store.server_ids.dom().contains(id)
                && after.server_ids[id] == store.server_ids[id]
            &&& told ==> after.server_infos.dom().contains(id) && after.server_infos[id]
                == payload.window_server_info->0
            &&& !told ==> after.server_infos.dom().contains(id)
                == store.server_infos.dom().contains(id) && after.server_infos[id]
                == store.server_infos[id]
            &&& after.observed.contains(id) <==> store.observed.contains(id) && !own && !told
            &&& own ==> sent.dom().contains(id) && sent[id].target == Some(payload.window.frame)
                && sent[id].last_sent.raw == (if records.dom().contains(id) {
                records[id].last_sent.raw
            } else {
                0
            })
            &&& !own ==> sent.dom().contains(id) == records.dom().contains(id) && sent[id]
                == records[id]
        }),
{
}

/// Nothing is known any more of a window that was destroyed, neither by its own
/// id nor by that of the server; all other windows stay. One that was not known
/// changes nothing.
pub proof fn law_destroyed_window_is_unknown(
    store: StoreView,
    records: Map<WindowServerId, TransactionRecord>,
    window: WindowId,
    other: WindowId,
    id: WindowServerId,
)
    ensures
        ({
            let after = store_destroyed(store, window);
            let sent = records_destroyed(records, store, window);
            let known = store.windows.dom().contains(window);
            let own = known && store.windows[window].info.sys_id == Some(id);
            &&& !known ==> after == store && sent == records
            &&& !after.windows.dom().contains(window)
            &&& known ==> !after.visibility.dom().contains(window)
            &&& other != window ==> {
                &&& after.windows.dom().contains(other) == store.windows.dom().contains(other)
                &&& after.windows[other] == store.windows[other]
                &&& after.visibility.dom().contains(other) == store.visibility.dom().contains(other)
                &&& after.visibility[other] == store.visibility[other]
            }
            &&& own ==> {
                &&& !after.server_ids.dom().contains(id) && !after.server_infos.dom().contains(id)
                &&& !after.server_spaces.dom().contains(id) && !after.observed.contains(id)
                &&& !after.visible.contains(id) && !sent.dom().contains(id)
            }
            &&& !own ==> {
                &&& after.server_ids.dom().contains(id) == store.server_ids.dom().contains(id)
                &&& after.server_ids[id] == store.server_ids[id]
                &&& after.server_infos.dom().contains(id) == store.server_infos.dom().contains(id)
                &&& after.server_infos[id] == store.server_infos[id]
                &&& after.server_spaces.dom().contains(id) == store.server_spaces.dom().contains(id)
                &&& after.server_spaces[id] == store.server_spaces[id]
                &&& after.observed.contains(id) == store.observed.contains(id)
                &&& after.visible.contains(id) == store.visible.contains(id)
                &&& sent.dom().contains(id) == records.dom().contains(id)
                &&& sent[id] == records[id]
            }
        }),
{
}

/// What the going of a window does to the drag: one that depends on it ends and
/// lets go of the window; any other goes on, with its preview as its target is.
pub proof fn law_destroyed_window_leaves_the_drag(drag: ManagerView, window: WindowId)
    ensures
        ({
            let after = drag_destroyed(drag, window);
            let ends = match drag.actor.state {
                StateView::Idle => false,
                StateView::AwaitingSource(pending) => pending.kind
                    == (crate::drag::StartKind::Native { window }),
                StateView::Dragging(session) => session.source.window == window,
            };
            &&& after.actor == drag.actor.without(window)
            &&& ends ==> after.actor.state is Idle && after.preview is None
            &&& after.externally_controlled_window == (if ends
                && drag.externally_controlled_window == Some(window) {
                None
            } else {
                drag.externally_controlled_window
            })
            &&& match after.actor.state {
                StateView::Dragging(session) => match session.target {
                    TargetState::Validated(target) => after.preview == Some(target),
                    _ => after.preview is None,
                },
                _ => after.preview is None,
            }
        }),
{
}

/// Minimizing a window that is not minimized, and bringing back one that is, is
/// noted with the judgement that goes with it; a minimized window is not visible.
/// In any other case nothing changes.
pub proof fn law_minimizing_is_noted(store: StoreView, window: WindowId, admission: Admission)
    ensures
        ({
            let down = store_minimized(store, window, admission);
            let up = store_deminiaturized(store, window, admission);
            let known = store.windows.dom().contains(window);
            let is_minimized = store.windows[window].info.is_minimized;
            let state = store.windows[window];
            &&& can_minimize(store, window) <==> known && !is_minimized
            &&& can_deminiaturize(store, window) <==> known && is_minimized
            &&& !known || is_minimized ==> down == store
            &&& !known || !is_minimized ==> up == store
            &&& known && !is_minimized ==> {
                &&& down.windows.dom() == store.windows.dom()
                &&& down.windows == store.windows.insert(window, down.windows[window])
                &&& down.windows[window].info.is_minimized
                &&& down.windows[window].info.title == state.info.title
                &&& down.windows[window].info.frame == state.info.frame
                &&& down.windows[window].info.sys_id == state.info.sys_id
                &&& down.windows[window].frame_monotonic == state.frame_monotonic
                &&& down.windows[window].admission == admission
                &&& down.visibility == store.visibility.insert(window, WindowVisibility::Minimized)
                &&& down.server_ids == store.server_ids && down.server_infos == store.server_infos
                &&& down.server_spaces == store.server_spaces && down.observed == store.observed
                &&& match state.info.sys_id {
                    Some(id) => down.visible == store.visible.remove(id),
                    None => down.visible == store.visible,
                }
            }
            &&& known && is_minimized ==> {
                &&& up.windows.dom() == store.windows.dom()
                &&& up.windows == store.windows.insert(window, up.windows[window])
                &&& !up.windows[window].info.is_minimized
                &&& up.windows[window].info.title == state.info.title
                &&& up.windows[window].info.frame == state.info.frame
                &&& up.windows[window].info.sys_id == state.info.sys_id
                &&& up.windows[window].frame_monotonic == state.frame_monotonic
                &&& up.windows[window].admission == admission
                &&& up.visibility == store.visibility.insert(window, WindowVisibility::Visible)
                &&& same_server(up, store)
            }
        }),
{
    let down = store_minimized(store, window, admission);
    let up = store_deminiaturized(store, window, admission);
    if store.windows.dom().contains(window) {
        assert(down.windows.dom() =~= store.windows.dom());
        assert(up.windows.dom() =~= store.windows.dom());
        assert(down.windows =~= store.windows.insert(window, down.windows[window]));
        assert(up.windows =~= store.windows.insert(window, up.windows[window]));
    }
}

/// A title is new where the window is known and has another one. It is then
/// noted and made known together with the one before, and the rules are applied
/// anew to that window; otherwise nothing happens.
pub proof fn law_new_titles(store: StoreView, payload: WindowTitleChangedPayload)
    ensures
        ({
            let window = payload.window;
            let outcome = retitled_outcome(store, payload);
            let after = store_retitled(store, payload);
            let new = store.windows.dom().contains(window) && store.windows[window].info.title@
                != payload.title@;
            &&& retitles(store, payload) <==> new
            &&& !new ==> after == store && only(outcome, OutcomeChange::Nothing)
            &&& new ==> {
                &&& after == store.titled(window, payload.title)
                &&& only(
                    OutcomeView {
                        title_broadcast: None,
                        reapply_app_rules: Seq::empty(),
                        ..outcome
                    },
                    OutcomeChange::Nothing,
                )
                &&& outcome.reapply_app_rules == seq![window]
                &&& outcome.title_broadcast is Some
                &&& outcome.title_broadcast->0.window == window
                &&& outcome.title_broadcast->0.previous_title == store.windows[window].info.title
                &&& outcome.title_broadcast->0.new_title == payload.title
            }
        }),
{
}

/// What windows that come and go ask for. A new one is to be taken in where it
/// can be judged at once. One that goes, or is minimized, leaves the layout; one
/// that is brought back joins the active space where it is admitted.
pub proof fn law_windows_come_and_go(
    store: StoreView,
    drag: ManagerView,
    payload: WindowDeminiaturizedPayload,
    admission: Admission,
)
    ensures
        ({
            let window = payload.window;
            let known = store.windows.dom().contains(window);
            let minimized = store.windows[window].info.is_minimized;
            let gone = seq![LayoutEvent::WindowRemoved(window)];
            let created = created_outcome(window, admission);
            let destroyed = destroyed_outcome(store, window);
            let down = minimized_outcome(store, window);
            let up = deminiaturized_outcome(store, payload, admission);
            let unchanged = OutcomeChange::Membership { removed: false, added: false };
            &&& only(
                OutcomeView { created_window: None, ..created },
                OutcomeChange::Membership { removed: false, added: true },
            )
            &&& created.created_window == (if admission.can_reconcile {
                Some(window)
            } else {
                None
            })
            &&& !known ==> only(destroyed, OutcomeChange::Nothing) && drag_without(
                store,
                drag,
                window,
            ) == drag
            &&& known ==> destroyed.layout_events == gone && only(
                OutcomeView { layout_events: Seq::empty(), ..destroyed },
                OutcomeChange::Membership { removed: true, added: false },
            ) && drag_without(store, drag, window) == drag_destroyed(drag, window)
            &&& !known || minimized ==> only(down, OutcomeChange::Nothing)
            &&& known && !minimized ==> down.layout_events == gone && only(
                OutcomeView { layout_events: Seq::empty(), ..down },
                unchanged,
            )
            &&& match payload.active_space {
                Some(space) if known && minimized && admission.admitted => up.layout_events == seq![
                    LayoutEvent::WindowAdded(space, window),
                ] && only(OutcomeView { layout_events: Seq::empty(), ..up }, unchanged),
                _ => only(up, OutcomeChange::Nothing),
            }
        }),
{
}

/// When the windows are arranged once a drag has ended: once where a tiled window
/// was dragged, a drop was carried out or the space is another one, else not at
/// all.
pub proof fn law_ended_drag_is_arranged(
    commit: DragCommit,
    final_space: Option<SpaceId>,
    dropped: bool,
)
    ensures
        disturbs_layout(commit, final_space, dropped) <==> commit.source.tiled || dropped
            || commit.source.origin_space != final_space,
        passes_after(true) == 1,
        passes_after(false) == 0,
{
}

/// Only a foreign frame is looked into further; an acknowledged or requested one
/// is noted, any other is not.
pub proof fn law_reports_are_acted_upon(
    store: StoreView,
    window: WindowId,
    frame: Rect,
    report: FrameReport,
)
    ensures
        disposition_of(report) == FrameChangeDisposition::NeedsGeometryAnalysis <==> report
            is Foreign,
        report is Acknowledged || report is Requested ==> store_reported(
            store,
            window,
            frame,
            report,
        ) == store.framed(window, frame),
        report is Unknown || report is MissionControl || report is Stale || report is Foreign
            ==> store_reported(store, window, frame, report) == store,
{
}

/// Mission control ends every drag. Without it, a mouse that is up while a drag
/// is announced or in progress has been released unnoticed.
pub proof fn law_missed_releases(
    drag: ManagerView,
    mission_control_active: bool,
    mouse: Option<MouseState>,
)
    ensures
        ({
            let after = drag_under(drag, mission_control_active);
            &&& !mission_control_active ==> after == drag
            &&& mission_control_active ==> after.actor.state is Idle && after.preview is None
                && after.externally_controlled_window is None && after.actor.settings
                == drag.actor.settings && after.actor.next_session_id
                == drag.actor.next_session_id
            &&& missed_mouse_up(drag, mission_control_active, mouse) <==> !mission_control_active
                && mouse == Some(MouseState::Up) && !(drag.actor.state is Idle)
        }),
{
}

/// Focus follows the mouse to a window unless that is not wanted, or it is the
/// main window already and the engine knows. The window is raised, alone and
/// quietly, with the handle of its application where there is one, unless it is
/// the main window; and the engine hears of the focus where there is an active
/// space.
pub proof fn law_focus_follows_to_the_window(
    apps: Map<ProcessId, AppState>,
    payload: MouseMovedPayload,
)
    ensures
        ({
            let outcome = follow_outcome(apps, payload);
            let calm = OutcomeView {
                raise_request: None,
                layout_events: Seq::empty(),
                ..outcome
            };
            &&& only(calm, OutcomeChange::Unconcerned)
            &&& match payload.window {
                Some(window) if payload.should_sync && (!payload.is_main
                    || payload.needs_layout_sync) => {
                    let pid = ProcessId { raw: window.pid };
                    &&& outcome.layout_events == match payload.active_space {
                        Some(space) => seq![LayoutEvent::WindowFocused(space, window)],
                        None => Seq::empty(),
                    }
                    &&& outcome.raise_request is Some <==> !payload.is_main
                    &&& outcome.raise_request matches Some(request) ==> {
                        &&& request.raise_windows.len() == 1
                        &&& request.raise_windows[0] == seq![window]
                        &&& request.focus_window matches Some(focus) && focus.0 == window
                            && focus.1 is None
                        &&& request.focus_quiet == Quiet::Yes
                        &&& forall|other: ProcessId| #[trigger]
                            request.app_handles.dom().contains(other) <==> other == pid
                                && apps.dom().contains(pid)
                        &&& apps.dom().contains(pid) ==> request.app_handles[pid]
                            == apps[pid].handle
                    }
                },
                _ => outcome.layout_events.len() == 0 && outcome.raise_request is None,
            }
        }),
{
}

} // verus!
