//! How the reactor answers to the end of a drag.

use crate::drag_manager::{DragManager, ManagerView};
use crate::ids::{SpaceId, WindowId, WorkspaceId};
use crate::layout::{LayoutSnapshot, SnapshotView};
use crate::model::{DragCommit, DragKind, DragScene, DragSceneTarget, MouseButton, SceneView};
use crate::outcome::{
    EventOutcome, LayoutCommand, LayoutEvent, OutcomeView, Screens, WindowDropRequest,
};
use crate::windows::{RiftState, StoreView};
use vstd::prelude::*;

verus! {

/// The targets that a scene has for `source`: those of `windows` that are
/// known and are not the source, in the same order, each at its newest frame.
pub open spec fn scene_targets(
    store: StoreView,
    windows: Seq<WindowId>,
    source: WindowId,
    space: SpaceId,
) -> Seq<DragSceneTarget> {
    windows.filter(others_known(store, source)).map_values(at_newest_frame(store, space))
}

/// Picks the known windows other than `source`.
pub open spec fn others_known(store: StoreView, source: WindowId) -> spec_fn(WindowId) -> bool {
    |window: WindowId| window != source && store.knows(window)
}

/// Makes a known window a target.
pub open spec fn at_newest_frame(store: StoreView, space: SpaceId) -> spec_fn(
    WindowId,
) -> DragSceneTarget {
    |window: WindowId|
        DragSceneTarget { window, space, frame: store.windows[window].frame_monotonic }
}

/// The scene in `space` for a drag of `source`.
pub open spec fn scene_for(
    store: StoreView,
    layout: SnapshotView,
    source: WindowId,
    space: SpaceId,
) -> SceneView {
    SceneView {
        action_override: layout.drop_action(space),
        targets: scene_targets(store, layout.drop_windows(space, source), source, space),
    }
}

fn targets_among(state: &RiftState, windows: &Vec<WindowId>, source: WindowId, space: SpaceId) -> (r:
    Vec<DragSceneTarget>)
    requires
        state.wf(),
    ensures
        r@ == scene_targets(state@, windows@, source, space),
{
    let ghost keep = others_known(state@, source);
    let ghost show = at_newest_frame(state@, space);
    let mut targets: Vec<DragSceneTarget> = Vec::new();
    let mut i: usize = 0;
    proof {
        reveal(Seq::filter);
        assert(windows@.take(0) =~= Seq::<WindowId>::empty());
        assert(targets@ =~= windows@.take(0).filter(keep).map_values(show));
    }
    while i < windows.len()
        invariant
            i <= windows@.len(),
            state.wf(),
            keep == others_known(state@, source),
            show == at_newest_frame(state@, space),
            targets@ == windows@.take(i as int).filter(keep).map_values(show),
        decreases windows@.len() - i,
    {
        let window = windows[i];
        let ghost before = windows@.take(i as int).filter(keep);
        proof {
            reveal(Seq::filter);
            assert(windows@.take(i + 1).drop_last() =~= windows@.take(i as int));
        }
        if window != source {
            if let Some(known) = state.windows.window(window) {
                targets.push(DragSceneTarget { window, space, frame: known.frame_monotonic });
                assert(windows@.take(i + 1).filter(keep) == before.push(window));
                assert(targets@ =~= before.push(window).map_values(show));
            }
        }
        i = i + 1;
    }
    assert(windows@.take(i as int) =~= windows@);
    targets
}

/// What `source` can be dropped on in `space`.
pub fn build_drag_scene(
    state: &RiftState,
    layout: &LayoutSnapshot,
    source: WindowId,
    space: SpaceId,
) -> (r: DragScene)
    requires
        state.wf(),
        layout.wf(),
    ensures
        r@ == scene_for(state@, layout@, source, space),
{
    let targets = match layout.drop_scene_windows(space, source) {
        Some(windows) => targets_among(state, windows, source, space),
        None => targets_among(state, &Vec::new(), source, space),
    };
    DragScene { action_override: layout.drop_action_override(space), targets }
}

#[derive(Clone, Debug)]
pub struct MouseUpPayload {
    pub button: MouseButton,
    pub final_space: Option<SpaceId>,
    pub screens: Screens,
}

/// What the reactor does when a drag is cancelled: a tiled window that the
/// pointer had goes back to its place in the layout, a floating one to the
/// frame it had, and one that the system carries along stays where it is.
pub open spec fn cancel_outcome(drag: ManagerView) -> OutcomeView {
    match drag.actor.session() {
        Some(session) => if session.kind.native() {
            OutcomeView::no_change()
        } else if session.source.tiled {
            OutcomeView::layout_changed(false)
        } else if !session.source.last_frame.same_frame(session.source.origin_frame) {
            OutcomeView::no_change().writing(session.source.window, session.source.origin_frame, true)
        } else {
            OutcomeView::no_change()
        },
        None => OutcomeView::no_change(),
    }
}

/// Give up the drag in progress.
pub fn handle_cancel(drag: &mut DragManager) -> (r: EventOutcome)
    ensures
        final(drag)@ == old(drag)@.at_rest(),
        r@ == cancel_outcome(old(drag)@),
{
    let cancelled = drag.actor.cancel();
    drag.release_preview();
    drag.externally_controlled_window = None;
    let Some(cancelled) = cancelled else {
        return EventOutcome::no_change();
    };
    let source = cancelled.source;
    if cancelled.kind.is_native() {
        EventOutcome::no_change()
    } else if source.tiled {
        EventOutcome::layout_changed(false)
    } else if !source.last_frame.equals(source.origin_frame) {
        EventOutcome::no_change().with_pre_layout_window_frame_write(
            source.window,
            source.origin_frame,
            true,
        )
    } else {
        EventOutcome::no_change()
    }
}

/// A drag that has ended and whose drop, if there is one, the layout engine
/// has yet to carry out.
#[derive(Debug)]
pub struct PendingMouseUp {
    pub commit: DragCommit,
    pub final_space: Option<SpaceId>,
    pub drop: Option<WindowDropRequest>,
    pub outcome: EventOutcome,
}

/// What a release of a button leads to.
#[derive(Debug)]
pub enum MouseUpStep {
    /// The button had no drag.
    NoDrag(EventOutcome),
    Committed(PendingMouseUp),
}

/// A drag whose window has been moved to the space where it was released,
/// and which the layout engine has yet to assign to a workspace there.
#[derive(Debug)]
pub struct SettledMouseUp {
    pub commit: DragCommit,
    pub final_space: Option<SpaceId>,
    pub assign: Option<LayoutCommand>,
    pub needs_layout: bool,
    pub outcome: EventOutcome,
}

/// The drop that a commit asks for: one within the space that the window is
/// in, of a known window on a known one.
pub open spec fn drop_request(store: StoreView, commit: DragCommit) -> Option<WindowDropRequest> {
    match commit.target {
        Some(target) => if commit.source.current_space == Some(target.intent.space) && store.knows(
            commit.source.window,
        ) && store.knows(target.intent.window) {
            Some(
                WindowDropRequest {
                    source: commit.source.window,
                    target: target.intent.window,
                    space: target.intent.space,
                    action: target.intent.action,
                },
            )
        } else {
            None
        },
        None => None,
    }
}

/// What a commit amounts to wherever its window was released: a tiled window
/// that was resized tells the layouts so.
pub open spec fn commit_outcome(commit: DragCommit, screens: Screens) -> OutcomeView {
    if commit.kind == DragKind::ModifierResize && commit.source.tiled {
        OutcomeView::layout_changed(false).event(
            LayoutEvent::WindowResized {
                wid: commit.source.window,
                old_frame: commit.source.origin_frame,
                new_frame: commit.source.last_frame,
                screens,
            },
        )
    } else {
        OutcomeView::layout_changed(false)
    }
}

/// Whether a window was released in another space than the one it came from.
pub open spec fn left_its_space(commit: DragCommit, final_space: Option<SpaceId>) -> bool {
    commit.source.origin_space != final_space
}

/// Whether the end of a drag disturbs the layout: a tiled window was dragged, a
/// drop was carried out, or the window has left its space.
pub open spec fn disturbs_layout(
    commit: DragCommit,
    final_space: Option<SpaceId>,
    dropped: bool,
) -> bool {
    commit.source.tiled || dropped || left_its_space(commit, final_space)
}

/// How often the windows are arranged once a drag has ended.
pub open spec fn passes_after(needs_layout: bool) -> u8 {
    if needs_layout {
        1
    } else {
        0
    }
}

/// The space that a window joins by being released there.
pub open spec fn joins(
    store: StoreView,
    commit: DragCommit,
    final_space: Option<SpaceId>,
) -> Option<SpaceId> {
    if left_its_space(commit, final_space) && store.admits(commit.source.window) {
        final_space
    } else {
        None
    }
}

/// The store once the window has joined that space.
pub open spec fn store_joined(
    store: StoreView,
    commit: DragCommit,
    final_space: Option<SpaceId>,
) -> StoreView {
    match (joins(store, commit, final_space), store.server_id(commit.source.window)) {
        (Some(space), Some(id)) => store.in_space(id, Some(space)).shown(id),
        _ => store,
    }
}

/// The assignment to the workspace that the joined space shows.
pub open spec fn assignment(
    store: StoreView,
    layout: SnapshotView,
    commit: DragCommit,
    final_space: Option<SpaceId>,
) -> Option<LayoutCommand> {
    match joins(store, commit, final_space) {
        Some(space) => match layout.active(space) {
            Some(workspace) => Some(
                LayoutCommand::AssignWindow { space, window: commit.source.window, workspace },
            ),
            None => None,
        },
        None => None,
    }
}

/// What the layouts are told of a window that was released in another space.
pub open spec fn joined_outcome(
    outcome: OutcomeView,
    store: StoreView,
    commit: DragCommit,
    final_space: Option<SpaceId>,
) -> OutcomeView {
    let left = if left_its_space(commit, final_space) && commit.source.origin_space is Some {
        outcome.event(LayoutEvent::WindowRemoved(commit.source.window))
    } else {
        outcome
    };
    match joins(store, commit, final_space) {
        Some(space) => left.event(LayoutEvent::WindowAdded(space, commit.source.window)),
        None => left,
    }
}

/// The workspace that a floating position belongs to: the window's own, else
/// the one that the space shows.
pub open spec fn position_workspace(layout: SnapshotView, space: SpaceId, window: WindowId) -> Option<
    WorkspaceId,
> {
    match layout.workspace(space, window) {
        Some(workspace) => Some(workspace),
        None => layout.active(space),
    }
}

/// What becomes of a floating window's position: the one from another space
/// is forgotten, and the new one is kept.
pub open spec fn position_kept(
    outcome: OutcomeView,
    layout: SnapshotView,
    commit: DragCommit,
    final_space: Option<SpaceId>,
) -> OutcomeView {
    let window = commit.source.window;
    match final_space {
        Some(space) => if layout.floats(window) {
            let forgotten = if left_its_space(commit, final_space) {
                outcome.command(LayoutCommand::RemoveFloatingPosition { window })
            } else {
                outcome
            };
            match position_workspace(layout, space, window) {
                Some(workspace) => forgotten.command(
                    LayoutCommand::StoreFloatingPosition {
                        space,
                        workspace,
                        window,
                        frame: commit.source.last_frame,
                    },
                ),
                None => forgotten,
            }
        } else {
            outcome
        },
        None => outcome,
    }
}

/// End the drag that was started with the released button. Where there was
/// one, the layout engine carries out the drop, and `join_final_space` takes
/// its answer.
pub fn handle_mouse_up(
    state: &RiftState,
    drag: &mut DragManager,
    payload: MouseUpPayload,
) -> (r: MouseUpStep)
    requires
        state.wf(),
    ensures
        final(drag)@ == (if old(drag)@.actor.held_by(payload.button) {
            old(drag)@.at_rest()
        } else {
            old(drag)@
        }),
        match old(drag)@.actor.commit(payload.button) {
            Some(commit) => r matches MouseUpStep::Committed(pending) && {
                &&& pending.commit == commit
                &&& pending.final_space == payload.final_space
                &&& pending.drop == drop_request(state@, commit)
                &&& pending.outcome@ == commit_outcome(commit, payload.screens)
            },
            None => r matches MouseUpStep::NoDrag(outcome) && outcome@
                == OutcomeView::layout_changed(false),
        },
{
    let Some(commit) = drag.actor.finish(payload.button) else {
        return MouseUpStep::NoDrag(EventOutcome::layout_changed(false));
    };
    drag.release_preview();
    drag.externally_controlled_window = None;
    let window = commit.source.window;
    let mut outcome = EventOutcome::layout_changed(false);
    if commit.kind == DragKind::ModifierResize && commit.source.tiled {
        outcome =
        outcome.with_layout_event(
            LayoutEvent::WindowResized {
                wid: window,
                old_frame: commit.source.origin_frame,
                new_frame: commit.source.last_frame,
                screens: payload.screens,
            },
        );
    }
    let drop = match commit.target {
        Some(target) => if commit.source.current_space == Some(target.intent.space)
            && state.windows.contains_window(window) && state.windows.contains_window(
            target.intent.window,
        ) {
            Some(
                WindowDropRequest {
                    source: window,
                    target: target.intent.window,
                    space: target.intent.space,
                    action: target.intent.action,
                },
            )
        } else {
            None
        },
        None => None,
    };
    MouseUpStep::Committed(
        PendingMouseUp { commit, final_space: payload.final_space, drop, outcome },
    )
}

/// Let the window of an ended drag join the space where it was released.
/// `dropped` is the layout engine's answer to the drop, where one was asked
/// for.
pub fn join_final_space(
    state: &mut RiftState,
    layout: &LayoutSnapshot,
    pending: PendingMouseUp,
    dropped: bool,
) -> (r: SettledMouseUp)
    requires
        old(state).wf(),
        layout.wf(),
    ensures
        final(state).wf(),
        final(state)@ == store_joined(old(state)@, pending.commit, pending.final_space),
        r.commit == pending.commit,
        r.final_space == pending.final_space,
        r.assign == assignment(old(state)@, layout@, pending.commit, pending.final_space),
        r.needs_layout == disturbs_layout(
            pending.commit,
            pending.final_space,
            pending.drop is Some && dropped,
        ),
        r.outcome@ == joined_outcome(
            pending.outcome@,
            old(state)@,
            pending.commit,
            pending.final_space,
        ),
{
    let commit = pending.commit;
    let window = commit.source.window;
    let mut outcome = pending.outcome;
    let mut assign: Option<LayoutCommand> = None;
    let mut needs_layout = commit.source.tiled || (pending.drop.is_some() && dropped);
    if commit.source.origin_space != pending.final_space {
        if commit.source.origin_space.is_some() {
            outcome = outcome.with_layout_event(LayoutEvent::WindowRemoved(window));
        }
        if let Some(space) = pending.final_space {
            if state.windows.is_admitted(window) {
                if let Some(server_id) = state.windows.window_server_id(window) {
                    state.windows.set_window_server_space(server_id, Some(space));
                    state.windows.mark_window_visible(server_id);
                }
                if let Some(workspace) = layout.active_workspace(space) {
                    assign = Some(LayoutCommand::AssignWindow { space, window, workspace });
                }
                outcome = outcome.with_layout_event(LayoutEvent::WindowAdded(space, window));
            }
        }
        needs_layout = true;
    }
    SettledMouseUp { commit, final_space: pending.final_space, assign, needs_layout, outcome }
}

/// Keep the position of a floating window that was released. `layout` holds
/// what the layout engine says once it has assigned the window.
pub fn keep_floating_position(layout: &LayoutSnapshot, settled: SettledMouseUp) -> (r: EventOutcome)
    requires
        layout.wf(),
    ensures
        r@ == (OutcomeView {
            arrange_passes: Some(passes_after(settled.needs_layout)),
            ..position_kept(settled.outcome@, layout@, settled.commit, settled.final_space)
        }),
{
    let commit = settled.commit;
    let window = commit.source.window;
    let mut outcome = settled.outcome;
    if let Some(space) = settled.final_space {
        if layout.is_window_floating(window) {
            if commit.source.origin_space != settled.final_space {
                outcome =
                outcome.with_layout_command(LayoutCommand::RemoveFloatingPosition { window });
            }
            let workspace = match layout.workspace_for_window(space, window) {
                Some(workspace) => Some(workspace),
                None => layout.active_workspace(space),
            };
            if let Some(workspace) = workspace {
                outcome =
                outcome.with_layout_command(
                    LayoutCommand::StoreFloatingPosition {
                        space,
                        workspace,
                        window,
                        frame: commit.source.last_frame,
                    },
                );
            }
        }
    }
    let passes: u8 = if settled.needs_layout {
        1
    } else {
        0
    };
    outcome.with_arrange_passes(passes)
}

} // verus!
