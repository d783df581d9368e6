//! How the reactor answers to what happens to windows.

use crate::apps::{AppManager, AppState};
use crate::drag_manager::{DragManager, ManagerView};
use crate::ids::{ProcessId, SpaceId, WindowId, WindowServerId};
use crate::outcome::{
    AppHandle, EventOutcome, LayoutEvent, OutcomeView, Quiet, RaiseRequest, RaiseView,
    TitleBroadcast,
};
use crate::table::Table;
use crate::transactions::{last_sent, TransactionManager, TransactionRecord};
use crate::windows::{
    Admission, RiftState, StoreView, WindowInfo, WindowServerInfo, WindowState, WindowVisibility,
};
use vstd::prelude::*;

verus! {

#[derive(Debug)]
pub struct WindowCreatedPayload {
    pub window_id: WindowId,
    pub window: WindowInfo,
    pub window_server_info: Option<WindowServerInfo>,
}

/// The store once a new window is known.
pub open spec fn store_created(
    store: StoreView,
    payload: WindowCreatedPayload,
    admission: Admission,
) -> StoreView {
    let claimed = match payload.window.sys_id {
        Some(id) => store.owned_by(id, payload.window_id).unobserved(id),
        None => store,
    };
    let described = match payload.window_server_info {
        Some(info) => claimed.unobserved(info.id).with_server_info(info),
        None => claimed,
    };
    described.with_window(payload.window_id, WindowState::described(payload.window, admission))
}

/// The records once a new window is known: it is to have the frame that it
/// came with.
pub open spec fn records_created(
    records: Map<WindowServerId, TransactionRecord>,
    window: WindowInfo,
) -> Map<WindowServerId, TransactionRecord> {
    match window.sys_id {
        Some(id) => records.insert(
            id,
            TransactionRecord { last_sent: last_sent(records, id), target: Some(window.frame) },
        ),
        None => records,
    }
}

/// What the creation of a window asks for.
pub open spec fn created_outcome(window: WindowId, admission: Admission) -> OutcomeView {
    OutcomeView {
        created_window: if admission.can_reconcile {
            Some(window)
        } else {
            None
        },
        ..OutcomeView::membership_changed(false, true)
    }
}

/// Take in a new window. `admission` is the heuristic's word on it.
pub fn handle_window_created(
    state: &mut RiftState,
    transactions: &mut TransactionManager,
    payload: WindowCreatedPayload,
    admission: Admission,
) -> (r: EventOutcome)
    requires
        old(state).wf(),
        old(transactions).wf(),
    ensures
        final(state).wf(),
        final(transactions).wf(),
        final(state)@ == store_created(old(state)@, payload, admission),
        final(transactions)@ == records_created(old(transactions)@, payload.window),
        r@ == created_outcome(payload.window_id, admission),
{
    let wid = payload.window_id;
    let window = payload.window;
    if let Some(wsid) = window.sys_id {
        state.windows.track_window_server_id(wsid, wid);
        state.windows.clear_window_server_observed(wsid);
    }
    if let Some(info) = payload.window_server_info {
        state.windows.clear_window_server_observed(info.id);
        state.windows.track_window_server_info(info);
    }
    let window_state = WindowState::new(window, admission);
    if let Some(wsid) = window_state.info.sys_id {
        let txid = transactions.get_last_sent_txid(wsid);
        transactions.store_txid(wsid, txid, window_state.frame_monotonic);
    }
    let can_reconcile = window_state.can_reconcile_admission();
    state.windows.insert_window(wid, window_state);
    let outcome = EventOutcome::window_membership_changed(false, true);
    if can_reconcile {
        outcome.with_created_window_finalization(wid)
    } else {
        outcome
    }
}

#[derive(Clone, Copy, Debug, PartialEq, Eq, Structural)]
pub struct WindowDestroyedPayload {
    pub window: WindowId,
}

/// The store once a window has gone.
pub open spec fn store_destroyed(store: StoreView, window: WindowId) -> StoreView {
    if !store.knows(window) {
        store
    } else {
        match store.server_id(window) {
            Some(id) => store.without_server_state(id).without_window(window),
            None => store.without_window(window),
        }
    }
}

/// The records once a window has gone.
pub open spec fn records_destroyed(
    records: Map<WindowServerId, TransactionRecord>,
    store: StoreView,
    window: WindowId,
) -> Map<WindowServerId, TransactionRecord> {
    match store.server_id(window) {
        Some(id) => records.remove(id),
        None => records,
    }
}

/// The drag once a known window has gone.
pub open spec fn drag_destroyed(drag: ManagerView, window: WindowId) -> ManagerView {
    let synced = drag.with_actor(drag.actor.without(window)).synced();
    if drag.actor.depends_on(window) && drag.externally_controlled_window == Some(window) {
        ManagerView { externally_controlled_window: None, ..synced }
    } else {
        synced
    }
}

/// The drag after `window`, if it was known, is gone.
pub open spec fn drag_without(
    store: StoreView,
    drag: ManagerView,
    window: WindowId,
) -> ManagerView {
    if store.knows(window) {
        drag_destroyed(drag, window)
    } else {
        drag
    }
}

/// What the end of a window asks for.
pub open spec fn destroyed_outcome(store: StoreView, window: WindowId) -> OutcomeView {
    if store.knows(window) {
        OutcomeView::membership_changed(true, false).event(LayoutEvent::WindowRemoved(window))
    } else {
        OutcomeView::no_change()
    }
}

/// Forget a window that has gone.
pub fn handle_window_destroyed(
    state: &mut RiftState,
    transactions: &mut TransactionManager,
    drag: &mut DragManager,
    payload: WindowDestroyedPayload,
) -> (r: EventOutcome)
    requires
        old(state).wf(),
        old(transactions).wf(),
    ensures
        final(state).wf(),
        final(transactions).wf(),
        final(state)@ == store_destroyed(old(state)@, payload.window),
        final(transactions)@ == records_destroyed(
            old(transactions)@,
            old(state)@,
            payload.window,
        ),
        final(drag)@ == drag_without(old(state)@, old(drag)@, payload.window),
        r@ == destroyed_outcome(old(state)@, payload.window),
{
    let wid = payload.window;
    if !state.windows.contains_window(wid) {
        return EventOutcome::no_change();
    }
    if let Some(ws_id) = state.windows.window_server_id(wid) {
        transactions.remove_for_window(ws_id);
        state.windows.remove_window_server_state(ws_id);
    }
    state.windows.remove_window(wid);
    let drag_changed = drag.actor.window_removed(wid);
    drag.sync_preview();
    if drag_changed && drag.externally_controlled_window == Some(wid) {
        drag.externally_controlled_window = None;
    }
    EventOutcome::window_membership_changed(true, false).with_layout_event(
        LayoutEvent::WindowRemoved(wid),
    )
}

/// Whether a window is known and not minimized.
pub open spec fn can_minimize(store: StoreView, window: WindowId) -> bool {
    store.knows(window) && !store.windows[window].info.is_minimized
}

/// Whether a window is known and minimized.
pub open spec fn can_deminiaturize(store: StoreView, window: WindowId) -> bool {
    store.knows(window) && store.windows[window].info.is_minimized
}

/// The store once a window was minimized.
pub open spec fn store_minimized(
    store: StoreView,
    window: WindowId,
    admission: Admission,
) -> StoreView {
    if can_minimize(store, window) {
        let minimized = store.minimized(window, true);
        let hidden = match store.server_id(window) {
            Some(id) => minimized.hidden(id),
            None => minimized,
        };
        hidden.with_visibility(window, WindowVisibility::Minimized).judged(window, admission)
    } else {
        store
    }
}

/// What minimizing a window asks for.
pub open spec fn minimized_outcome(store: StoreView, window: WindowId) -> OutcomeView {
    if can_minimize(store, window) {
        OutcomeView::membership_changed(false, false).event(LayoutEvent::WindowRemoved(window))
    } else {
        OutcomeView::no_change()
    }
}

/// Take a window that was minimized out of the layouts. `admission` is the
/// heuristic's word on it from now on.
pub fn handle_window_minimized(state: &mut RiftState, wid: WindowId, admission: Admission) -> (r:
    EventOutcome)
    requires
        old(state).wf(),
    ensures
        final(state).wf(),
        final(state)@ == store_minimized(old(state)@, wid, admission),
        r@ == minimized_outcome(old(state)@, wid),
{
    let server_id = match state.windows.window(wid) {
        Some(window) => {
            if window.info.is_minimized {
                return EventOutcome::no_change();
            }
            window.info.sys_id
        },
        None => {
            return EventOutcome::no_change();
        },
    };
    state.windows.set_minimized(wid, true);
    if let Some(ws_id) = server_id {
        state.windows.mark_window_hidden(ws_id);
    }
    state.windows.set_visibility(wid, WindowVisibility::Minimized);
    state.windows.set_admission(wid, admission);
    EventOutcome::window_membership_changed(false, false).with_layout_event(
        LayoutEvent::WindowRemoved(wid),
    )
}

#[derive(Clone, Copy, Debug, PartialEq, Eq, Structural)]
pub struct WindowDeminiaturizedPayload {
    pub window: WindowId,
    pub active_space: Option<SpaceId>,
}

/// The store once a window is no longer minimized.
pub open spec fn store_deminiaturized(
    store: StoreView,
    window: WindowId,
    admission: Admission,
) -> StoreView {
    if can_deminiaturize(store, window) {
        store.minimized(window, false).judged(window, admission).with_visibility(
            window,
            WindowVisibility::Visible,
        )
    } else {
        store
    }
}

/// What bringing a window back asks for.
pub open spec fn deminiaturized_outcome(
    store: StoreView,
    payload: WindowDeminiaturizedPayload,
    admission: Admission,
) -> OutcomeView {
    match payload.active_space {
        Some(space) if can_deminiaturize(store, payload.window) && admission.admitted => {
            OutcomeView::membership_changed(false, false).event(
                LayoutEvent::WindowAdded(space, payload.window),
            )
        },
        _ => OutcomeView::no_change(),
    }
}

/// Take a window that is no longer minimized back into the layouts, if it
/// belongs there. `admission` is the heuristic's word on it from now on.
pub fn handle_window_deminiaturized(
    state: &mut RiftState,
    payload: WindowDeminiaturizedPayload,
    admission: Admission,
) -> (r: EventOutcome)
    requires
        old(state).wf(),
    ensures
        final(state).wf(),
        final(state)@ == store_deminiaturized(old(state)@, payload.window, admission),
        r@ == deminiaturized_outcome(old(state)@, payload, admission),
{
    let wid = payload.window;
    match state.windows.window(wid) {
        Some(window) => {
            if !window.info.is_minimized {
                return EventOutcome::no_change();
            }
        },
        None => {
            return EventOutcome::no_change();
        },
    }
    state.windows.set_minimized(wid, false);
    state.windows.set_admission(wid, admission);
    state.windows.set_visibility(wid, WindowVisibility::Visible);
    if state.windows.is_admitted(wid) {
        if let Some(space) = payload.active_space {
            return EventOutcome::window_membership_changed(false, false).with_layout_event(
                LayoutEvent::WindowAdded(space, wid),
            );
        }
    }
    EventOutcome::no_change()
}

#[derive(Debug)]
pub struct WindowTitleChangedPayload {
    pub window: WindowId,
    pub title: String,
}

/// Whether a known window gets another title.
pub open spec fn retitles(store: StoreView, payload: WindowTitleChangedPayload) -> bool {
    store.knows(payload.window) && store.windows[payload.window].info.title@ != payload.title@
}

/// The store after a change of title.
pub open spec fn store_retitled(store: StoreView, payload: WindowTitleChangedPayload) -> StoreView {
    if retitles(store, payload) {
        store.titled(payload.window, payload.title)
    } else {
        store
    }
}

/// What a change of title asks for.
pub open spec fn retitled_outcome(
    store: StoreView,
    payload: WindowTitleChangedPayload,
) -> OutcomeView {
    if retitles(store, payload) {
        OutcomeView {
            title_broadcast: Some(
                TitleBroadcast {
                    window: payload.window,
                    previous_title: store.windows[payload.window].info.title,
                    new_title: payload.title,
                },
            ),
            reapply_app_rules: seq![payload.window],
            ..OutcomeView::no_change()
        }
    } else {
        OutcomeView::no_change()
    }
}

/// Take in a window's new title.
pub fn handle_window_title_changed(state: &mut RiftState, payload: WindowTitleChangedPayload) -> (r:
    EventOutcome)
    requires
        old(state).wf(),
    ensures
        final(state).wf(),
        final(state)@ == store_retitled(old(state)@, payload),
        r@ == retitled_outcome(old(state)@, payload),
{
    let wid = payload.window;
    let new_title = payload.title;
    let previous_title = match state.windows.window(wid) {
        Some(window) => window.info.title.clone(),
        None => {
            return EventOutcome::no_change();
        },
    };
    if previous_title == new_title {
        return EventOutcome::no_change();
    }
    state.windows.set_title(wid, new_title.clone());
    let mut outcome = EventOutcome::no_change().with_window_title_broadcast(
        wid,
        previous_title,
        new_title,
    );
    outcome.reapply_app_rules.push(wid);
    outcome
}

#[derive(Clone, Copy, Debug, PartialEq, Eq, Structural)]
pub struct MouseMovedPayload {
    pub window: Option<WindowId>,
    pub should_sync: bool,
    pub is_main: bool,
    pub needs_layout_sync: bool,
    pub active_space: Option<SpaceId>,
}

/// The window that focus follows the pointer to.
pub open spec fn followed(payload: MouseMovedPayload) -> Option<WindowId> {
    if payload.should_sync && !(payload.is_main && !payload.needs_layout_sync) {
        payload.window
    } else {
        None
    }
}

/// The request that raises a window and focuses it quietly. It holds
/// the handle of the window's application where that is known.
pub open spec fn raise_of(apps: Map<ProcessId, AppState>, window: WindowId) -> RaiseView {
    let pid = ProcessId { raw: window.pid };
    RaiseView {
        raise_windows: seq![seq![window]],
        focus_window: Some((window, None)),
        app_handles: if apps.dom().contains(pid) {
            Map::<ProcessId, AppHandle>::empty().insert(pid, apps[pid].handle)
        } else {
            Map::empty()
        },
        focus_quiet: Quiet::Yes,
    }
}

/// What a pointer over another window leads to.
pub open spec fn follow_outcome(
    apps: Map<ProcessId, AppState>,
    payload: MouseMovedPayload,
) -> OutcomeView {
    match followed(payload) {
        None => OutcomeView::unconcerned(),
        Some(window) => {
            let raised = if payload.is_main {
                OutcomeView::unconcerned()
            } else {
                OutcomeView::unconcerned().raise(raise_of(apps, window))
            };
            match payload.active_space {
                Some(space) => raised.event(LayoutEvent::WindowFocused(space, window)),
                None => raised,
            }
        },
    }
}

/// Let focus follow the pointer to a window.
pub fn handle_mouse_moved_over_window(apps: &AppManager, payload: MouseMovedPayload) -> (r:
    EventOutcome)
    requires
        apps.wf(),
    ensures
        r@ == follow_outcome(apps@, payload),
{
    let Some(window) = payload.window else {
        return EventOutcome::unconcerned();
    };
    if !payload.should_sync || (payload.is_main && !payload.needs_layout_sync) {
        return EventOutcome::unconcerned();
    }
    let mut outcome = EventOutcome::unconcerned();
    if !payload.is_main {
        let pid = ProcessId { raw: window.pid };
        let mut app_handles: Table<ProcessId, AppHandle> = Table::new();
        if let Some(app) = apps.apps.get(pid) {
            app_handles.insert(pid, app.handle);
        }
        let mut group: Vec<WindowId> = Vec::new();
        group.push(window);
        let mut raise_windows: Vec<Vec<WindowId>> = Vec::new();
        raise_windows.push(group);
        let request = RaiseRequest {
            raise_windows,
            focus_window: Some((window, None)),
            app_handles,
            focus_quiet: Quiet::Yes,
        };
        assert(request@.raise_windows =~= seq![seq![window]]) by {
            assert(group@ =~= seq![window]);
        }
        outcome = outcome.with_raise_request(request);
    }
    if let Some(space) = payload.active_space {
        outcome = outcome.with_layout_event(LayoutEvent::WindowFocused(space, window));
    }
    outcome
}

} // verus!
