//! How the reactor answers to a window that is seen at another frame.

use crate::drag::{NativeStart, StartKind};
use crate::drag_events::{build_drag_scene, scene_for};
use crate::drag_manager::{DragManager, ManagerView};
use crate::geometry::{Point, Rect};
use crate::ids::{SpaceId, TransactionId, WindowId, WindowServerId};
use crate::layout::{LayoutSnapshot, SnapshotView};
use crate::model::{DragScene, DragSource, SceneView};
use crate::outcome::{EventOutcome, LayoutCommand, LayoutEvent, OutcomeView, Screens};
use crate::settings::{LayoutMode, MouseState};
use crate::transactions::{
    last_sent, target_cleared, target_of, TransactionManager, TransactionRecord,
};
use crate::windows::{RiftState, StoreView};
use vstd::prelude::*;

verus! {

#[derive(Clone, Copy, Debug, PartialEq, Eq, Structural)]
pub enum FrameChangeDisposition {
    Handled,
    NeedsGeometryAnalysis,
}

/// What the report of a frame is about.
pub enum FrameReport {
    /// The window is not known.
    Unknown,
    /// Windows move by themselves while all of them are shown at once.
    MissionControl,
    /// The frame was seen before the newest write had reached the window.
    Stale,
    /// The window has answered to the newest write.
    Acknowledged,
    /// The frame was asked for.
    Requested,
    /// Somebody else has moved the window.
    Foreign,
}

/// What is known of the mouse once the system, which reports `reported`, has
/// been asked wherever nothing was known.
pub open spec fn asked(mouse: Option<MouseState>, reported: Option<MouseState>) -> Option<
    MouseState,
> {
    if mouse is None {
        reported
    } else {
        mouse
    }
}

/// The same, where the system is asked only while there is a drag.
pub open spec fn asked_if_dragging(
    drag: ManagerView,
    mouse: Option<MouseState>,
    reported: Option<MouseState>,
) -> Option<MouseState> {
    if drag.actor.state is Idle {
        mouse
    } else {
        asked(mouse, reported)
    }
}

/// Whether the report answers to a write that the window has yet to follow.
pub open spec fn answers_write(
    store: StoreView,
    records: Map<WindowServerId, TransactionRecord>,
    window: WindowId,
    last_seen: Option<TransactionId>,
) -> bool {
    store.server_id(window) matches Some(id) && target_of(records, id) is Some && last_seen is Some
}

/// What a report is about. `mouse` is the state of the mouse once asked for.
pub open spec fn frame_report(
    store: StoreView,
    records: Map<WindowServerId, TransactionRecord>,
    window: WindowId,
    last_seen: Option<TransactionId>,
    requested: bool,
    mouse: Option<MouseState>,
    mission_control_active: bool,
) -> FrameReport {
    let answer = answers_write(store, records, window, last_seen);
    if !store.knows(window) {
        FrameReport::Unknown
    } else if mission_control_active {
        FrameReport::MissionControl
    } else if answer && last_seen != Some(last_sent(records, store.server_id(window)->0)) {
        FrameReport::Stale
    } else if answer && mouse != Some(MouseState::Down) {
        FrameReport::Acknowledged
    } else if requested {
        FrameReport::Requested
    } else {
        FrameReport::Foreign
    }
}

/// The records after a report. A write that the window has followed is no
/// longer waited for, nor is one after which the window was grabbed or given
/// another frame.
pub open spec fn records_reported(
    store: StoreView,
    records: Map<WindowServerId, TransactionRecord>,
    window: WindowId,
    last_seen: Option<TransactionId>,
    report: FrameReport,
    at_target: bool,
) -> Map<WindowServerId, TransactionRecord> {
    match store.server_id(window) {
        Some(id) => {
            let cleared = target_cleared(records, id);
            match report {
                FrameReport::Acknowledged => if at_target {
                    cleared
                } else {
                    records
                },
                FrameReport::Requested => cleared,
                FrameReport::Foreign => if answers_write(store, records, window, last_seen) {
                    cleared
                } else {
                    records
                },
                _ => records,
            }
        },
        None => records,
    }
}

/// What is known of the mouse after a report.
pub open spec fn mouse_reported(
    drag: ManagerView,
    mouse: Option<MouseState>,
    reported: Option<MouseState>,
    report: FrameReport,
    answers: bool,
) -> Option<MouseState> {
    match report {
        FrameReport::Unknown | FrameReport::Stale => asked_if_dragging(drag, mouse, reported),
        FrameReport::MissionControl => mouse,
        FrameReport::Acknowledged | FrameReport::Foreign => asked(mouse, reported),
        FrameReport::Requested => if answers {
            asked(mouse, reported)
        } else {
            asked_if_dragging(drag, mouse, reported)
        },
    }
}

/// Whether a report needs to be looked into further.
pub open spec fn disposition_of(report: FrameReport) -> FrameChangeDisposition {
    if report is Foreign {
        FrameChangeDisposition::NeedsGeometryAnalysis
    } else {
        FrameChangeDisposition::Handled
    }
}

/// The store after a report.
pub open spec fn store_reported(
    store: StoreView,
    window: WindowId,
    frame: Rect,
    report: FrameReport,
) -> StoreView {
    if report is Acknowledged || report is Requested {
        store.framed(window, frame)
    } else {
        store
    }
}

/// The drag after a look at whether mission control is active, which ends it.
pub open spec fn drag_under(drag: ManagerView, mission_control_active: bool) -> ManagerView {
    if mission_control_active {
        drag.at_rest()
    } else {
        drag
    }
}

/// The mouse is up although a drag is in progress.
pub open spec fn missed_mouse_up(
    drag: ManagerView,
    mission_control_active: bool,
    mouse: Option<MouseState>,
) -> bool {
    !mission_control_active && mouse == Some(MouseState::Up) && !(drag.actor.state is Idle)
}

/// Ask for the mouse where nothing is known of it and there is a drag.
fn query_mouse_for_active_drag(
    drag: &DragManager,
    mouse_state: &mut Option<MouseState>,
    reported: Option<MouseState>,
)
    ensures
        *final(mouse_state) == asked_if_dragging(drag@, *old(mouse_state), reported),
{
    if mouse_state.is_none() && drag.actor.is_active() {
        *mouse_state = reported;
    }
}

/// Tell the reports that need a closer look from those that are dealt with
/// here. `reported` is what the system says of the mouse, and `at_target`
/// whether the frame is the one that the window was sent to.
pub fn classify_window_frame_change(
    state: &mut RiftState,
    transactions: &mut TransactionManager,
    drag: &mut DragManager,
    wid: WindowId,
    new_frame: Rect,
    last_seen: Option<TransactionId>,
    requested: bool,
    mouse_state: &mut Option<MouseState>,
    mission_control_active: bool,
    reported: Option<MouseState>,
    at_target: bool,
) -> (r: FrameChangeDisposition)
    requires
        old(state).wf(),
        old(transactions).wf(),
    ensures
        final(state).wf(),
        final(transactions).wf(),
        ({
            let report = frame_report(
                old(state)@,
                old(transactions)@,
                wid,
                last_seen,
                requested,
                asked(*old(mouse_state), reported),
                mission_control_active,
            );
            let answers = answers_write(old(state)@, old(transactions)@, wid, last_seen);
            &&& r == disposition_of(report)
            &&& final(state)@ == store_reported(old(state)@, wid, new_frame, report)
            &&& final(transactions)@ == records_reported(
                old(state)@,
                old(transactions)@,
                wid,
                last_seen,
                report,
                at_target,
            )
            &&& final(drag)@ == drag_under(old(drag)@, report is MissionControl)
            &&& *final(mouse_state) == mouse_reported(
                old(drag)@,
                *old(mouse_state),
                reported,
                report,
                answers,
            )
        }),
{
    let server_id = match state.windows.window(wid) {
        Some(window) => window.info.sys_id,
        None => {
            query_mouse_for_active_drag(drag, mouse_state, reported);
            return FrameChangeDisposition::Handled;
        },
    };
    if mission_control_active {
        drag.reset();
        return FrameChangeDisposition::Handled;
    }
    if let (Some(server), Some(seen)) = (server_id, last_seen) {
        if transactions.get_target_frame(server).is_some() {
            if seen != transactions.get_last_sent_txid(server) {
                query_mouse_for_active_drag(drag, mouse_state, reported);
                return FrameChangeDisposition::Handled;
            }
            if mouse_state.is_none() {
                *mouse_state = reported;
            }
            if *mouse_state == Some(MouseState::Down) {
                transactions.clear_target_for_window(server);
            } else {
                if at_target {
                    transactions.clear_target_for_window(server);
                }
                state.windows.set_frame(wid, new_frame);
                return FrameChangeDisposition::Handled;
            }
        }
    }
    if requested {
        query_mouse_for_active_drag(drag, mouse_state, reported);
        state.windows.set_frame(wid, new_frame);
        if let Some(server) = server_id {
            transactions.clear_target_for_window(server);
        }
        return FrameChangeDisposition::Handled;
    }
    if mouse_state.is_none() {
        *mouse_state = reported;
    }
    FrameChangeDisposition::NeedsGeometryAnalysis
}

#[derive(Debug)]
pub struct WindowFrameChangedPayload {
    pub window: WindowId,
    pub new_frame: Rect,
    pub mouse_state: Option<MouseState>,
    pub old_space: Option<SpaceId>,
    pub new_space: Option<SpaceId>,
    pub old_space_active: bool,
    pub new_space_active: bool,
    pub active_resize_space: Option<SpaceId>,
    pub pending_target_space: Option<SpaceId>,
    pub assigned_space: Option<SpaceId>,
    pub keep_assigned_for_scrolling: bool,
    pub screens: Screens,
}

/// How the new frame of a window compares with the ones that are known.
#[derive(Clone, Copy, Debug, PartialEq, Eq, Structural)]
pub struct FrameComparison {
    /// The new frame is the one that was known.
    pub unchanged: bool,
    /// It has the size that was known.
    pub size_kept: bool,
    /// It has the size that the window had when the drag in progress began.
    pub session_size_kept: bool,
    /// Its center.
    pub center: Point,
}

/// Whether the reactor has anything to do with the new frame.
pub open spec fn concerned(
    store: StoreView,
    payload: WindowFrameChangedPayload,
    seen: FrameComparison,
) -> bool {
    store.knows(payload.window) && (payload.old_space_active || payload.new_space_active)
        && !seen.unchanged
}

/// Whether the new frame is the effect of a drag that the window manager
/// itself carries out.
pub open spec fn own_write(drag: ManagerView, window: WindowId) -> bool {
    drag.actor.session() matches Some(session) && !session.kind.native() && session.source.window
        == window
}

/// Whether the new frame is part of a drag.
pub open spec fn part_of_drag(drag: ManagerView, mouse: Option<MouseState>) -> bool {
    mouse == Some(MouseState::Down) || !(drag.actor.state is Idle)
}

/// The position that a floating layout keeps of the window: one within the
/// space that the window is assigned to, else known to be in.
pub open spec fn kept_position(
    layout: SnapshotView,
    payload: WindowFrameChangedPayload,
) -> Option<LayoutCommand> {
    let home = if payload.assigned_space is Some {
        payload.assigned_space
    } else {
        payload.old_space
    };
    match home {
        Some(space) => if Some(space) == payload.new_space {
            match layout.workspace(space, payload.window) {
                Some(workspace) => if layout.mode(workspace) == Some(LayoutMode::Floating) {
                    Some(
                        LayoutCommand::StoreFloatingPosition {
                            space,
                            workspace,
                            window: payload.window,
                            frame: payload.new_frame,
                        },
                    )
                } else {
                    None
                },
                None => None,
            }
        } else {
            None
        },
        None => None,
    }
}

/// The source that a native drag of the window has.
pub open spec fn native_source(
    store: StoreView,
    layout: SnapshotView,
    payload: WindowFrameChangedPayload,
) -> DragSource {
    DragSource {
        window: payload.window,
        origin_frame: store.windows[payload.window].frame_monotonic,
        last_frame: payload.new_frame,
        origin_space: payload.old_space,
        current_space: payload.new_space,
        tiled: !layout.floats(payload.window),
    }
}

/// The scene that a native drag of the window begins with: there are targets
/// for a tiled window that is moved within a space.
pub open spec fn native_scene(
    store: StoreView,
    layout: SnapshotView,
    payload: WindowFrameChangedPayload,
    seen: FrameComparison,
) -> SceneView {
    match payload.new_space {
        Some(space) => if !layout.floats(payload.window) && seen.size_kept {
            scene_for(store, layout, payload.window, space)
        } else {
            SceneView::empty()
        },
        None => SceneView::empty(),
    }
}

/// The drag once it has followed the window, or has begun with it.
pub open spec fn drag_followed(
    drag: ManagerView,
    store: StoreView,
    layout: SnapshotView,
    payload: WindowFrameChangedPayload,
    seen: FrameComparison,
) -> ManagerView {
    let window = payload.window;
    let actor = if drag.actor.natively_drags(window) {
        drag.actor.natively_at(
            window,
            payload.new_frame,
            payload.new_space,
            seen.session_size_kept,
        )
    } else {
        drag.actor.awaiting(StartKind::Native { window }).resolved(
            drag.actor.next_session_id,
            Some(native_source(store, layout, payload)),
            native_scene(store.framed(window, payload.new_frame), layout, payload, seen),
            NativeStart { size_kept: seen.size_kept, center: seen.center },
        )
    };
    let followed = drag.with_actor(actor).synced();
    if layout.floats(window) {
        followed
    } else {
        ManagerView { externally_controlled_window: Some(window), ..followed }
    }
}

/// Whether a window that is seen in another space keeps the place that it has
/// in the layouts.
pub open spec fn keeps_its_place(payload: WindowFrameChangedPayload) -> bool {
    ||| payload.keep_assigned_for_scrolling
    ||| payload.pending_target_space is Some && payload.assigned_space
        == payload.pending_target_space && payload.new_space != payload.pending_target_space
}

/// Whether the window is to change its space in the layouts.
pub open spec fn changes_space(drag: ManagerView, payload: WindowFrameChangedPayload) -> bool {
    !part_of_drag(drag, payload.mouse_state) && payload.old_space != payload.new_space
        && !keeps_its_place(payload)
}

/// The space whose layout the window joins.
pub open spec fn joined_space(store: StoreView, payload: WindowFrameChangedPayload) -> Option<
    SpaceId,
> {
    if payload.new_space_active && store.admits(payload.window) {
        payload.new_space
    } else {
        None
    }
}

/// What a resize tells the layouts.
pub open spec fn resized_event(
    store: StoreView,
    payload: WindowFrameChangedPayload,
) -> LayoutEvent {
    LayoutEvent::WindowResized {
        wid: payload.window,
        old_frame: store.windows[payload.window].frame_monotonic,
        new_frame: payload.new_frame,
        screens: payload.screens,
    }
}

/// The store after a new frame.
pub open spec fn store_frame_changed(
    store: StoreView,
    drag: ManagerView,
    payload: WindowFrameChangedPayload,
    seen: FrameComparison,
) -> StoreView {
    if !concerned(store, payload, seen) {
        store
    } else {
        let framed = store.framed(payload.window, payload.new_frame);
        if own_write(drag, payload.window) || !changes_space(drag, payload) {
            framed
        } else {
            match (store.server_id(payload.window), payload.new_space) {
                (Some(id), Some(space)) => framed.in_space(id, Some(space)).shown(id),
                (Some(id), None) => framed.in_space(id, None),
                (None, _) => framed,
            }
        }
    }
}

/// The drag after a new frame.
pub open spec fn drag_frame_changed(
    store: StoreView,
    layout: SnapshotView,
    drag: ManagerView,
    payload: WindowFrameChangedPayload,
    seen: FrameComparison,
) -> ManagerView {
    if concerned(store, payload, seen) && !own_write(drag, payload.window) && part_of_drag(
        drag,
        payload.mouse_state,
    ) {
        drag_followed(drag, store, layout, payload, seen)
    } else {
        drag
    }
}

/// What the layouts are told of a window that changes its space.
pub open spec fn space_changed_outcome(
    outcome: OutcomeView,
    store: StoreView,
    layout: SnapshotView,
    payload: WindowFrameChangedPayload,
) -> OutcomeView {
    let window = payload.window;
    let left = outcome.event(LayoutEvent::WindowRemovedPreserveFloating(window));
    match joined_space(store, payload) {
        Some(space) => match layout.active(space) {
            Some(workspace) => left.command(
                LayoutCommand::AssignWindow { space, window, workspace },
            ),
            None => left,
        }.event(LayoutEvent::WindowAdded(space, window)),
        None => left,
    }
}

/// The outcome with a mouse-up that is to be dispatched, where a drag goes on
/// though the mouse is up.
pub open spec fn with_missed_mouse_up(
    outcome: OutcomeView,
    drag: ManagerView,
    mouse: Option<MouseState>,
) -> OutcomeView {
    OutcomeView {
        dispatch_mouse_up: mouse == Some(MouseState::Up) && !(drag.actor.state is Idle),
        ..outcome
    }
}

/// What a new frame leads to.
pub open spec fn frame_changed_outcome(
    store: StoreView,
    layout: SnapshotView,
    drag: ManagerView,
    payload: WindowFrameChangedPayload,
    seen: FrameComparison,
) -> OutcomeView {
    let mouse = payload.mouse_state;
    let outcome = match kept_position(layout, payload) {
        Some(command) => OutcomeView::layout_changed(false).command(command),
        None => OutcomeView::layout_changed(false),
    };
    if !concerned(store, payload, seen) {
        OutcomeView::unconcerned()
    } else if own_write(drag, payload.window) {
        OutcomeView::no_change()
    } else if part_of_drag(drag, mouse) {
        let told = if !seen.size_kept && payload.active_resize_space is Some {
            outcome.event(resized_event(store, payload))
        } else {
            outcome
        };
        with_missed_mouse_up(told, drag_followed(drag, store, layout, payload, seen), mouse)
    } else if payload.old_space != payload.new_space {
        if keeps_its_place(payload) {
            outcome
        } else {
            space_changed_outcome(outcome, store, layout, payload)
        }
    } else if !seen.size_kept && payload.old_space_active {
        OutcomeView { is_resize: true, ..outcome.event(resized_event(store, payload)) }
    } else {
        outcome
    }
}

/// The position that a floating layout keeps of the window.
fn floating_position(layout: &LayoutSnapshot, payload: &WindowFrameChangedPayload) -> (r: Option<
    LayoutCommand,
>)
    requires
        layout.wf(),
    ensures
        r == kept_position(layout@, *payload),
{
    let home = match payload.assigned_space {
        Some(space) => Some(space),
        None => payload.old_space,
    };
    let Some(space) = home else {
        return None;
    };
    if Some(space) != payload.new_space {
        return None;
    }
    let Some(workspace) = layout.workspace_for_window(space, payload.window) else {
        return None;
    };
    if layout.layout_mode(workspace) != Some(LayoutMode::Floating) {
        return None;
    }
    Some(
        LayoutCommand::StoreFloatingPosition {
            space,
            workspace,
            window: payload.window,
            frame: payload.new_frame,
        },
    )
}

/// Let the drag follow the window, or begin with it. `old_frame` is the frame
/// that the window had.
fn follow_drag(
    state: &RiftState,
    layout: &LayoutSnapshot,
    drag: &mut DragManager,
    payload: &WindowFrameChangedPayload,
    old_frame: Rect,
    seen: FrameComparison,
    Ghost(store): Ghost<StoreView>,
)
    requires
        state.wf(),
        layout.wf(),
        state@ == store.framed(payload.window, payload.new_frame),
        old_frame == store.windows[payload.window].frame_monotonic,
    ensures
        final(drag)@ == drag_followed(old(drag)@, store, layout@, *payload, seen),
{
    let wid = payload.window;
    let tiled = !layout.is_window_floating(wid);
    if !drag.actor.update_native(
        wid,
        payload.new_frame,
        payload.new_space,
        seen.session_size_kept,
    ) {
        let session_id: u64 = drag.actor.await_native(wid);
        let scene = match payload.new_space {
            Some(space) => if tiled && seen.size_kept {
                build_drag_scene(state, layout, wid, space)
            } else {
                DragScene::empty()
            },
            None => DragScene::empty(),
        };
        let _ = drag.actor.resolve_start(
            session_id,
            Some(
                DragSource {
                    window: wid,
                    origin_frame: old_frame,
                    last_frame: payload.new_frame,
                    origin_space: payload.old_space,
                    current_space: payload.new_space,
                    tiled,
                },
            ),
            scene,
            NativeStart { size_kept: seen.size_kept, center: seen.center },
        );
    }
    drag.sync_preview();
    if tiled {
        drag.externally_controlled_window = Some(wid);
    }
}

/// Whether a drag goes on though the mouse is up. While all windows are shown
/// at once there is no drag.
pub fn handle_mouse_up_if_needed(
    drag: &mut DragManager,
    mission_control_active: bool,
    mouse_state: Option<MouseState>,
) -> (r: bool)
    ensures
        final(drag)@ == drag_under(old(drag)@, mission_control_active),
        r == missed_mouse_up(old(drag)@, mission_control_active, mouse_state),
{
    if mission_control_active {
        drag.reset();
        return false;
    }
    mouse_state == Some(MouseState::Up) && drag.actor.is_active()
}

/// Take in a window's new frame. `seen` says how it compares with the frames
/// that are known.
pub fn handle_window_frame_changed(
    state: &mut RiftState,
    layout: &LayoutSnapshot,
    drag: &mut DragManager,
    payload: WindowFrameChangedPayload,
    seen: FrameComparison,
) -> (r: EventOutcome)
    requires
        old(state).wf(),
        layout.wf(),
    ensures
        final(state).wf(),
        final(state)@ == store_frame_changed(old(state)@, old(drag)@, payload, seen),
        final(drag)@ == drag_frame_changed(old(state)@, layout@, old(drag)@, payload, seen),
        r@ == frame_changed_outcome(old(state)@, layout@, old(drag)@, payload, seen),
{
    let wid = payload.window;
    let new_frame = payload.new_frame;
    let (server_id, old_frame) = match state.windows.window(wid) {
        Some(window) => (window.info.sys_id, window.frame_monotonic),
        None => {
            return EventOutcome::unconcerned();
        },
    };
    if !payload.old_space_active && !payload.new_space_active {
        return EventOutcome::unconcerned();
    }
    if seen.unchanged {
        return EventOutcome::unconcerned();
    }
    let ghost store = state@;
    state.windows.set_frame(wid, new_frame);
    // An adjusted acknowledgement of our own frame write is not a new native drag.
    if let (Some(kind), Some(source)) = (drag.actor.kind(), drag.actor.source()) {
        if !kind.is_native() && source.window == wid {
            return EventOutcome::no_change();
        }
    }
    // Somebody else's moves and resizes are authoritative for floating layouts.
    let mut outcome = EventOutcome::layout_changed(false);
    if let Some(command) = floating_position(layout, &payload) {
        outcome = outcome.with_layout_command(command);
    }
    if payload.mouse_state == Some(MouseState::Down) || drag.actor.is_active() {
        follow_drag(state, layout, drag, &payload, old_frame, seen, Ghost(store));
        if !seen.size_kept && payload.active_resize_space.is_some() {
            outcome =
            outcome.with_layout_event(
                LayoutEvent::WindowResized {
                    wid,
                    old_frame,
                    new_frame,
                    screens: payload.screens,
                },
            );
        }
    } else if payload.old_space != payload.new_space {
        if payload.pending_target_space.is_some() && payload.assigned_space
            == payload.pending_target_space && payload.new_space != payload.pending_target_space {
            return outcome;
        }
        if payload.keep_assigned_for_scrolling {
            return outcome;
        }
        outcome = outcome.with_layout_event(LayoutEvent::WindowRemovedPreserveFloating(wid));
        match payload.new_space {
            Some(space) => {
                if let Some(server) = server_id {
                    state.windows.set_window_server_space(server, Some(space));
                    state.windows.mark_window_visible(server);
                }
                if payload.new_space_active && state.windows.is_admitted(wid) {
                    if let Some(workspace) = layout.active_workspace(space) {
                        outcome =
                        outcome.with_layout_command(
                            LayoutCommand::AssignWindow { space, window: wid, workspace },
                        );
                    }
                    outcome = outcome.with_layout_event(LayoutEvent::WindowAdded(space, wid));
                }
            },
            None => {
                if let Some(server) = server_id {
                    state.windows.set_window_server_space(server, None);
                }
            },
        }
    } else if !seen.size_kept && payload.old_space_active {
        outcome.is_resize = true;
        outcome =
        outcome.with_layout_event(
            LayoutEvent::WindowResized { wid, old_frame, new_frame, screens: payload.screens },
        );
    }
    if handle_mouse_up_if_needed(drag, false, payload.mouse_state) {
        outcome.dispatch_mouse_up = true;
    }
    outcome
}

} // verus!
