//! What holds of the reactor's answers, whatever the event.

use crate::apps::AppState;
use crate::drag_events::{
    at_newest_frame, cancel_outcome, drop_request, joined_outcome, left_its_space, others_known,
    scene_for, store_joined,
};
use crate::drag_laws::law_gone_window_is_forgotten;
use crate::drag_manager::ManagerView;
use crate::frame_events::{
    answers_write, concerned, drag_frame_changed, frame_changed_outcome, frame_report,
    keeps_its_place, own_write, part_of_drag, records_reported, store_frame_changed,
    FrameComparison, WindowFrameChangedPayload,
};
use crate::geometry::Point;
use crate::ids::{ProcessId, SpaceId, TransactionId, WindowId, WindowServerId};
use crate::layout::SnapshotView;
use crate::model::DragCommit;
use crate::outcome::{LayoutEvent, OutcomeView};
use crate::settings::MouseState;
use crate::transactions::{last_sent, target_of, TransactionRecord};
use crate::window_events::{
    can_deminiaturize, can_minimize, drag_destroyed, follow_outcome, records_created,
    records_destroyed, retitles, store_created, store_deminiaturized, store_destroyed,
    store_minimized, MouseMovedPayload, WindowCreatedPayload, WindowTitleChangedPayload,
};
use crate::windows::{Admission, StoreView, WindowVisibility};
use vstd::prelude::*;

verus! {

proof fn lemma_filter_picks(windows: Seq<WindowId>, keep: spec_fn(WindowId) -> bool, i: int)
    requires
        0 <= i < windows.filter(keep).len(),
    ensures
        windows.contains(windows.filter(keep)[i]),
    decreases windows.len(),
{
    reveal(Seq::filter);
    if windows.len() > 0 {
        let before = windows.drop_last();
        if i < before.filter(keep).len() {
            lemma_filter_picks(before, keep, i);
            let j = choose|j: int| 0 <= j < before.len() && before[j] == before.filter(keep)[i];
            assert(windows[j] == before[j]);
        } else {
            assert(windows[windows.len() - 1] == windows.last());
        }
    }
}

/// A scene never offers the window that is dragged, nor one that is not
/// known; each of its targets is at the newest frame, and every known window
/// that the layout engine names is among them.
pub proof fn law_scene_offers_the_other_known_windows(
    store: StoreView,
    layout: SnapshotView,
    source: WindowId,
    space: SpaceId,
)
    ensures
        forall|i: int|
            0 <= i < scene_for(store, layout, source, space).targets.len() ==> {
                let target = #[trigger] scene_for(store, layout, source, space).targets[i];
                &&& target.window != source
                &&& store.knows(target.window)
                &&& layout.drop_windows(space, source).contains(target.window)
                &&& target.frame == store.windows[target.window].frame_monotonic
                &&& target.space == space
            },
        forall|window: WindowId| #[trigger]
            layout.drop_windows(space, source).contains(window) && window != source && store.knows(
                window,
            ) ==> scene_for(store, layout, source, space).targets.contains(
                at_newest_frame(store, space)(window),
            ),
{
    broadcast use vstd::seq_lib::group_filter_ensures;

    let windows = layout.drop_windows(space, source);
    let keep = others_known(store, source);
    let kept = windows.filter(keep);
    let targets = scene_for(store, layout, source, space).targets;
    assert forall|i: int| 0 <= i < targets.len() implies ({
        let target = #[trigger] targets[i];
        &&& target.window != source
        &&& store.knows(target.window)
        &&& windows.contains(target.window)
        &&& target.frame == store.windows[target.window].frame_monotonic
        &&& target.space == space
    }) by {
        assert(targets[i] == at_newest_frame(store, space)(kept[i]));
        assert(keep(kept[i]));
        lemma_filter_picks(windows, keep, i);
    }
    assert forall|window: WindowId| #[trigger]
        windows.contains(window) && window != source && store.knows(
            window,
        ) implies targets.contains(at_newest_frame(store, space)(window)) by {
        assert(keep(window));
        assert(kept.contains(window));
        let i = choose|i: int| 0 <= i < kept.len() && kept[i] == window;
        assert(targets[i] == at_newest_frame(store, space)(window));
    }
}

/// A cancelled drag leaves neither a preview nor a window that the layouts
/// leave alone, and cancelling again does nothing.
pub proof fn law_cancelled_drag_leaves_nothing(drag: ManagerView)
    ensures
        drag.at_rest().actor.session() is None,
        drag.at_rest().preview is None,
        drag.at_rest().externally_controlled_window is None,
        drag.at_rest().actor.settings == drag.actor.settings,
        drag.at_rest().at_rest() == drag.at_rest(),
        cancel_outcome(drag.at_rest()) == OutcomeView::no_change(),
{
}

/// Cancelling puts a window that the window manager moves back to where it
/// was, a tiled one by way of the layout, and leaves alone a window that the
/// system carries along.
pub proof fn law_cancelling_undoes_own_moves_only(drag: ManagerView)
    ensures
        drag.actor.session() matches Some(session) ==> {
            &&& session.kind.native() ==> cancel_outcome(drag) == OutcomeView::no_change()
            &&& !session.kind.native() && session.source.tiled ==> cancel_outcome(drag)
                == OutcomeView::layout_changed(false)
            &&& !session.kind.native() && !session.source.tiled
                && !session.source.last_frame.same_frame(session.source.origin_frame) ==> (
            cancel_outcome(drag).frame_write matches Some(write) && write.window
                == session.source.window && write.frame == session.source.origin_frame)
        },
        cancel_outcome(drag).layout_events.len() == 0,
{
}

/// A drop is asked for only within the space that the window is in, and only
/// between windows that are known.
pub proof fn law_drops_join_known_windows_of_one_space(store: StoreView, commit: DragCommit)
    ensures
        drop_request(store, commit) matches Some(request) ==> {
            &&& store.knows(request.source)
            &&& store.knows(request.target)
            &&& commit.source.current_space == Some(request.space)
            &&& request.source == commit.source.window
        },
        commit.target is None ==> drop_request(store, commit) is None,
{
}

/// A window that is released in the space where its drag began stays in its
/// place; one that is released elsewhere leaves the old space before it joins
/// the new one.
pub proof fn law_release_moves_between_spaces(
    outcome: OutcomeView,
    store: StoreView,
    commit: DragCommit,
    final_space: Option<SpaceId>,
)
    ensures
        !left_its_space(commit, final_space) ==> {
            &&& joined_outcome(outcome, store, commit, final_space) == outcome
            &&& store_joined(store, commit, final_space) == store
        },
        left_its_space(commit, final_space) && commit.source.origin_space is Some
            && final_space is Some && store.admits(commit.source.window) ==> joined_outcome(
            outcome,
            store,
            commit,
            final_space,
        ).layout_events == outcome.layout_events.push(
            LayoutEvent::WindowRemoved(commit.source.window),
        ).push(LayoutEvent::WindowAdded(final_space->0, commit.source.window)),
        store_joined(store, commit, final_space).windows == store.windows,
{
}

/// What happens to a window that is not known changes nothing.
pub proof fn law_unknown_windows_change_nothing(
    store: StoreView,
    layout: SnapshotView,
    records: Map<WindowServerId, TransactionRecord>,
    drag: ManagerView,
    window: WindowId,
    admission: Admission,
    title: WindowTitleChangedPayload,
    frame: WindowFrameChangedPayload,
    seen: FrameComparison,
)
    requires
        !store.knows(window),
        title.window == window,
        frame.window == window,
    ensures
        store_destroyed(store, window) == store,
        records_destroyed(records, store, window) == records,
        store_minimized(store, window, admission) == store,
        store_deminiaturized(store, window, admission) == store,
        !retitles(store, title),
        store_frame_changed(store, drag, frame, seen) == store,
        drag_frame_changed(store, layout, drag, frame, seen) == drag,
        frame_changed_outcome(store, layout, drag, frame, seen) == OutcomeView::unconcerned(),
{
}

/// Nothing that happens to one window touches what is known of another.
pub proof fn law_other_windows_are_untouched(
    store: StoreView,
    drag: ManagerView,
    created: WindowCreatedPayload,
    title: WindowTitleChangedPayload,
    frame: WindowFrameChangedPayload,
    seen: FrameComparison,
    window: WindowId,
    admission: Admission,
    other: WindowId,
)
    requires
        created.window_id == window,
        title.window == window,
        frame.window == window,
        other != window,
        store.knows(other),
    ensures
        store_created(store, created, admission).knows(other),
        store_created(store, created, admission).windows[other] == store.windows[other],
        store_destroyed(store, window).knows(other),
        store_destroyed(store, window).windows[other] == store.windows[other],
        store_minimized(store, window, admission).knows(other),
        store_minimized(store, window, admission).windows[other] == store.windows[other],
        store_deminiaturized(store, window, admission).knows(other),
        store_deminiaturized(store, window, admission).windows[other] == store.windows[other],
        store.titled(window, title.title).windows[other] == store.windows[other],
        store_frame_changed(store, drag, frame, seen).knows(other),
        store_frame_changed(store, drag, frame, seen).windows[other] == store.windows[other],
{
}

/// A window that was created is known, and is to have the frame that it came
/// with; the number of the last transaction is not lost.
pub proof fn law_created_window_is_known(
    store: StoreView,
    records: Map<WindowServerId, TransactionRecord>,
    created: WindowCreatedPayload,
    admission: Admission,
)
    ensures
        store_created(store, created, admission).knows(created.window_id),
        store_created(store, created, admission).windows[created.window_id].info == created.window,
        store_created(store, created, admission).windows[created.window_id].frame_monotonic
            == created.window.frame,
        created.window.sys_id matches Some(id) ==> {
            &&& store_created(store, created, admission).server_ids[id] == created.window_id
            &&& !store_created(store, created, admission).observed.contains(id)
            &&& target_of(records_created(records, created.window), id) == Some(
                created.window.frame,
            )
            &&& last_sent(records_created(records, created.window), id) == last_sent(records, id)
        },
{
}

/// A window that was destroyed is forgotten everywhere: by the store, by the
/// transactions and by the drag. A second report of its end does nothing.
pub proof fn law_destroyed_window_is_forgotten(
    store: StoreView,
    records: Map<WindowServerId, TransactionRecord>,
    drag: ManagerView,
    window: WindowId,
)
    requires
        store.knows(window),
    ensures
        !store_destroyed(store, window).knows(window),
        !store_destroyed(store, window).visibility.dom().contains(window),
        store.server_id(window) matches Some(id) ==> {
            &&& !store_destroyed(store, window).server_ids.dom().contains(id)
            &&& !store_destroyed(store, window).visible.contains(id)
            &&& !records_destroyed(records, store, window).dom().contains(id)
        },
        store_destroyed(store_destroyed(store, window), window) == store_destroyed(store, window),
        !drag_destroyed(drag, window).actor.depends_on(window),
        drag.actor.depends_on(window) ==> {
            &&& drag_destroyed(drag, window).actor.session() is None
            &&& drag_destroyed(drag, window).preview is None
            &&& drag_destroyed(drag, window).externally_controlled_window != Some(window)
        },
{
    law_gone_window_is_forgotten(drag.actor, window);
}

/// A new window that is destroyed leaves the windows as they were.
pub proof fn law_destruction_undoes_creation(
    store: StoreView,
    created: WindowCreatedPayload,
    admission: Admission,
)
    requires
        !store.knows(created.window_id),
    ensures
        store_destroyed(store_created(store, created, admission), created.window_id).windows
            == store.windows,
{
    let after = store_destroyed(store_created(store, created, admission), created.window_id);
    assert(after.windows =~= store.windows);
}

/// A window that was minimized and is shown again is as it was before, with
/// the heuristic's newest word on it; minimizing twice is minimizing once.
pub proof fn law_minimized_window_comes_back(
    store: StoreView,
    window: WindowId,
    minimized: Admission,
    shown: Admission,
)
    requires
        can_minimize(store, window),
    ensures
        can_deminiaturize(store_minimized(store, window, minimized), window),
        !can_minimize(store_minimized(store, window, minimized), window),
        store_minimized(store_minimized(store, window, minimized), window, shown)
            == store_minimized(store, window, minimized),
        store_deminiaturized(store_minimized(store, window, minimized), window, shown).windows
            == store.judged(window, shown).windows,
        store_deminiaturized(
            store_minimized(store, window, minimized),
            window,
            shown,
        ).visibility[window] == WindowVisibility::Visible,
{
    let back = store_deminiaturized(store_minimized(store, window, minimized), window, shown);
    assert(back.windows =~= store.judged(window, shown).windows);
}

/// A window that the window manager itself drags starts no native drag by
/// following it: its frame is taken in and nothing else happens.
pub proof fn law_own_frame_writes_start_no_drag(
    store: StoreView,
    layout: SnapshotView,
    drag: ManagerView,
    payload: WindowFrameChangedPayload,
    seen: FrameComparison,
)
    requires
        own_write(drag, payload.window),
        concerned(store, payload, seen),
    ensures
        drag_frame_changed(store, layout, drag, payload, seen) == drag,
        frame_changed_outcome(store, layout, drag, payload, seen) == OutcomeView::no_change(),
        store_frame_changed(store, drag, payload, seen) == store.framed(
            payload.window,
            payload.new_frame,
        ),
{
}

/// A frame that changes while the button is down begins a native drag of its
/// window, unless one is in progress, and a tiled window is left alone by the
/// layouts from then on.
pub proof fn law_foreign_moves_are_drags(
    store: StoreView,
    layout: SnapshotView,
    drag: ManagerView,
    payload: WindowFrameChangedPayload,
    seen: FrameComparison,
)
    requires
        concerned(store, payload, seen),
        !own_write(drag, payload.window),
        part_of_drag(drag, payload.mouse_state),
    ensures
        drag_frame_changed(store, layout, drag, payload, seen).actor.natively_drags(
            payload.window,
        ),
        drag_frame_changed(store, layout, drag, payload, seen).actor.session()->0.source.last_frame
            == payload.new_frame,
        !layout.floats(payload.window) ==> drag_frame_changed(
            store,
            layout,
            drag,
            payload,
            seen,
        ).externally_controlled_window == Some(payload.window),
{
}

/// The preview is always that of the drop that was found possible, and no
/// drop is possible for a floating window or one that has left its space.
pub proof fn law_preview_shows_a_possible_drop(
    store: StoreView,
    layout: SnapshotView,
    drag: ManagerView,
    payload: WindowFrameChangedPayload,
    seen: FrameComparison,
    window: WindowId,
)
    requires
        drag.actor.wf(),
        drag.preview == drag.actor.target(),
    ensures
        drag.at_rest().preview == drag.at_rest().actor.target(),
        drag.at_rest().actor.wf(),
        drag_destroyed(drag, window).preview == drag_destroyed(drag, window).actor.target(),
        drag_destroyed(drag, window).actor.wf(),
        drag_frame_changed(store, layout, drag, payload, seen).preview == drag_frame_changed(
            store,
            layout,
            drag,
            payload,
            seen,
        ).actor.target(),
        drag_frame_changed(store, layout, drag, payload, seen).actor.wf(),
{
}

/// A window that keeps its place in the layouts is neither removed from one
/// nor added to another, and one that is not dragged and changes its space is
/// first removed.
pub proof fn law_windows_change_space_in_order(
    store: StoreView,
    layout: SnapshotView,
    drag: ManagerView,
    payload: WindowFrameChangedPayload,
    seen: FrameComparison,
)
    requires
        concerned(store, payload, seen),
        !part_of_drag(drag, payload.mouse_state),
        payload.old_space != payload.new_space,
    ensures
        keeps_its_place(payload) ==> {
            &&& frame_changed_outcome(store, layout, drag, payload, seen).layout_events.len() == 0
            &&& store_frame_changed(store, drag, payload, seen) == store.framed(
                payload.window,
                payload.new_frame,
            )
        },
        !keeps_its_place(payload) ==> {
            let events = frame_changed_outcome(store, layout, drag, payload, seen).layout_events;
            &&& 1 <= events.len() <= 2
            &&& events[0] == LayoutEvent::WindowRemovedPreserveFloating(payload.window)
            &&& events.len() == 2 <==> payload.new_space is Some && payload.new_space_active
                && store.admits(payload.window)
            &&& events.len() == 2 ==> events[1] == LayoutEvent::WindowAdded(
                payload.new_space->0,
                payload.window,
            )
        },
{
}

/// A report never touches the transactions of another window, nor the number
/// of the last one; a write that the window has followed is no longer waited
/// for, and a stale report changes nothing.
pub proof fn law_reports_settle_writes(
    store: StoreView,
    records: Map<WindowServerId, TransactionRecord>,
    window: WindowId,
    last_seen: Option<TransactionId>,
    requested: bool,
    mouse: Option<MouseState>,
    mission_control_active: bool,
    at_target: bool,
    id: WindowServerId,
)
    ensures
        ({
            let report = frame_report(
                store,
                records,
                window,
                last_seen,
                requested,
                mouse,
                mission_control_active,
            );
            let after = records_reported(store, records, window, last_seen, report, at_target);
            &&& last_sent(after, id) == last_sent(records, id)
            &&& store.server_id(window) != Some(id) ==> target_of(after, id) == target_of(
                records,
                id,
            )
            &&& store.server_id(window) == Some(id) && (report is Requested || (
            report is Acknowledged && at_target)) ==> target_of(after, id) is None
            &&& report is Stale || report is Unknown || report is MissionControl ==> after
                == records
            &&& report is Foreign ==> !answers_write(store, after, window, last_seen)
        }),
{
}

/// The main window is not raised again, and a pointer that focus does not
/// follow leads to nothing.
pub proof fn law_focus_follows_with_restraint(
    apps: Map<ProcessId, AppState>,
    payload: MouseMovedPayload,
)
    ensures
        payload.is_main ==> follow_outcome(apps, payload).raise_request is None,
        payload.window is None || !payload.should_sync ==> follow_outcome(apps, payload)
            == OutcomeView::unconcerned(),
        payload.is_main && !payload.needs_layout_sync ==> follow_outcome(apps, payload)
            == OutcomeView::unconcerned(),
        follow_outcome(apps, payload).raise_request matches Some(request) ==> request.focus_window
            == Some((payload.window->0, None::<Point>)),
{
}

} // verus!
