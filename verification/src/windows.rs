//! The windows that the reactor knows, and what the window server says of
//! them.

use crate::geometry::Rect;
use crate::ids::{SpaceId, WindowId, WindowServerId};
use crate::table::Table;
use vstd::prelude::*;

verus! {

/// A window as its application describes it.
#[derive(Debug)]
pub struct WindowInfo {
    pub title: String,
    pub frame: Rect,
    pub sys_id: Option<WindowServerId>,
    pub is_minimized: bool,
}

/// A window as the window server describes it.
#[derive(Clone, Copy, Debug, PartialEq, Eq, Structural)]
pub struct WindowServerInfo {
    pub id: WindowServerId,
    pub pid: i32,
    pub layer: i32,
    pub frame: Rect,
}

/// What the heuristic says of a window.
#[derive(Clone, Copy, Debug, PartialEq, Eq, Structural)]
pub struct Admission {
    /// The window takes part in layouts.
    pub admitted: bool,
    /// Enough is known of the window to settle whether it does.
    pub can_reconcile: bool,
}

#[derive(Debug)]
pub struct WindowState {
    pub info: WindowInfo,
    /// The newest frame that is known.
    pub frame_monotonic: Rect,
    pub admission: Admission,
}

#[derive(Clone, Copy, Debug, PartialEq, Eq, Structural)]
pub enum WindowVisibility {
    Visible,
    Minimized,
}

#[derive(Debug)]
pub struct WindowStore {
    windows: Table<WindowId, WindowState>,
    visibility: Table<WindowId, WindowVisibility>,
    server_ids: Table<WindowServerId, WindowId>,
    server_infos: Table<WindowServerId, WindowServerInfo>,
    server_spaces: Table<WindowServerId, SpaceId>,
    observed: Table<WindowServerId, ()>,
    visible: Table<WindowServerId, ()>,
}

#[derive(Debug)]
pub struct RiftState {
    pub windows: WindowStore,
}

/// A window store as a value.
#[verifier::ext_equal]
pub struct StoreView {
    pub windows: Map<WindowId, WindowState>,
    pub visibility: Map<WindowId, WindowVisibility>,
    /// The window that each number of the window server belongs to.
    pub server_ids: Map<WindowServerId, WindowId>,
    pub server_infos: Map<WindowServerId, WindowServerInfo>,
    pub server_spaces: Map<WindowServerId, SpaceId>,
    /// Seen at the window server while no application had claimed them.
    pub observed: Set<WindowServerId>,
    pub visible: Set<WindowServerId>,
}

impl View for WindowStore {
    type V = StoreView;

    closed spec fn view(&self) -> StoreView {
        StoreView {
            windows: self.windows@,
            visibility: self.visibility@,
            server_ids: self.server_ids@,
            server_infos: self.server_infos@,
            server_spaces: self.server_spaces@,
            observed: self.observed@.dom(),
            visible: self.visible@.dom(),
        }
    }
}

impl View for RiftState {
    type V = StoreView;

    open spec fn view(&self) -> StoreView {
        self.windows@
    }
}

impl WindowState {
    /// The state of a window that has just been described.
    pub open spec fn described(info: WindowInfo, admission: Admission) -> WindowState {
        WindowState { frame_monotonic: info.frame, info, admission }
    }

    /// The state of a window that has just been described.
    pub fn new(info: WindowInfo, admission: Admission) -> (r: WindowState)
        ensures
            r == WindowState::described(info, admission),
    {
        let frame = info.frame;
        WindowState { info, frame_monotonic: frame, admission }
    }

    pub fn is_admitted(&self) -> (r: bool)
        ensures
            r == self.admission.admitted,
    {
        self.admission.admitted
    }

    pub fn can_reconcile_admission(&self) -> (r: bool)
        ensures
            r == self.admission.can_reconcile,
    {
        self.admission.can_reconcile
    }
}

impl StoreView {
    pub open spec fn knows(self, window: WindowId) -> bool {
        self.windows.dom().contains(window)
    }

    /// The number that the window server gives a known window.
    pub open spec fn server_id(self, window: WindowId) -> Option<WindowServerId> {
        if self.knows(window) {
            self.windows[window].info.sys_id
        } else {
            None
        }
    }

    pub open spec fn admits(self, window: WindowId) -> bool {
        self.knows(window) && self.windows[window].admission.admitted
    }

    pub open spec fn with_window(self, window: WindowId, state: WindowState) -> StoreView {
        StoreView { windows: self.windows.insert(window, state), ..self }
    }

    /// The store with the heuristic's word on a known window.
    pub open spec fn judged(self, window: WindowId, admission: Admission) -> StoreView {
        self.with_window(window, WindowState { admission, ..self.windows[window] })
    }

    /// The store with a known window at another frame.
    pub open spec fn framed(self, window: WindowId, frame: Rect) -> StoreView {
        self.with_window(window, WindowState { frame_monotonic: frame, ..self.windows[window] })
    }

    /// The store with a known window under another title.
    pub open spec fn titled(self, window: WindowId, title: String) -> StoreView {
        self.with_window(
            window,
            WindowState {
                info: WindowInfo { title, ..self.windows[window].info },
                ..self.windows[window]
            },
        )
    }

    /// The store with a known window minimized or not.
    pub open spec fn minimized(self, window: WindowId, is_minimized: bool) -> StoreView {
        self.with_window(
            window,
            WindowState {
                info: WindowInfo { is_minimized, ..self.windows[window].info },
                ..self.windows[window]
            },
        )
    }

    pub open spec fn without_window(self, window: WindowId) -> StoreView {
        StoreView {
            windows: self.windows.remove(window),
            visibility: self.visibility.remove(window),
            ..self
        }
    }

    pub open spec fn with_visibility(
        self,
        window: WindowId,
        visibility: WindowVisibility,
    ) -> StoreView {
        StoreView { visibility: self.visibility.insert(window, visibility), ..self }
    }

    pub open spec fn owned_by(self, id: WindowServerId, window: WindowId) -> StoreView {
        StoreView { server_ids: self.server_ids.insert(id, window), ..self }
    }

    pub open spec fn unobserved(self, id: WindowServerId) -> StoreView {
        StoreView { observed: self.observed.remove(id), ..self }
    }

    pub open spec fn with_server_info(self, info: WindowServerInfo) -> StoreView {
        StoreView { server_infos: self.server_infos.insert(info.id, info), ..self }
    }

    pub open spec fn without_server_state(self, id: WindowServerId) -> StoreView {
        StoreView {
            server_ids: self.server_ids.remove(id),
            server_infos: self.server_infos.remove(id),
            server_spaces: self.server_spaces.remove(id),
            observed: self.observed.remove(id),
            visible: self.visible.remove(id),
            ..self
        }
    }

    pub open spec fn hidden(self, id: WindowServerId) -> StoreView {
        StoreView { visible: self.visible.remove(id), ..self }
    }

    pub open spec fn shown(self, id: WindowServerId) -> StoreView {
        StoreView { visible: self.visible.insert(id), ..self }
    }

    pub open spec fn in_space(self, id: WindowServerId, space: Option<SpaceId>) -> StoreView {
        StoreView {
            server_spaces: match space {
                Some(space) => self.server_spaces.insert(id, space),
                None => self.server_spaces.remove(id),
            },
            ..self
        }
    }
}

impl RiftState {
    pub open spec fn wf(self) -> bool {
        self.windows.wf()
    }

    pub fn new() -> (r: RiftState)
        ensures
            r.wf(),
            r@.windows == Map::<WindowId, WindowState>::empty(),
            r@.visibility == Map::<WindowId, WindowVisibility>::empty(),
            r@.server_ids == Map::<WindowServerId, WindowId>::empty(),
            r@.server_infos == Map::<WindowServerId, WindowServerInfo>::empty(),
            r@.server_spaces == Map::<WindowServerId, SpaceId>::empty(),
            r@.observed == Set::<WindowServerId>::empty(),
            r@.visible == Set::<WindowServerId>::empty(),
    {
        RiftState { windows: WindowStore::new() }
    }
}

impl WindowStore {
    pub closed spec fn wf(self) -> bool {
        self.windows.wf() && self.visibility.wf() && self.server_ids.wf() && self.server_infos.wf()
            && self.server_spaces.wf() && self.observed.wf() && self.visible.wf()
    }

    pub fn new() -> (r: WindowStore)
        ensures
            r.wf(),
            r@.windows == Map::<WindowId, WindowState>::empty(),
            r@.visibility == Map::<WindowId, WindowVisibility>::empty(),
            r@.server_ids == Map::<WindowServerId, WindowId>::empty(),
            r@.server_infos == Map::<WindowServerId, WindowServerInfo>::empty(),
            r@.server_spaces == Map::<WindowServerId, SpaceId>::empty(),
            r@.observed == Set::<WindowServerId>::empty(),
            r@.visible == Set::<WindowServerId>::empty(),
    {
        let r = WindowStore {
            windows: Table::new(),
            visibility: Table::new(),
            server_ids: Table::new(),
            server_infos: Table::new(),
            server_spaces: Table::new(),
            observed: Table::new(),
            visible: Table::new(),
        };
        assert(r@.observed =~= Set::<WindowServerId>::empty());
        assert(r@.visible =~= Set::<WindowServerId>::empty());
        r
    }

    pub fn window(&self, window: WindowId) -> (r: Option<&WindowState>)
        requires
            self.wf(),
        ensures
            r == (if self@.knows(window) {
                Some(&self@.windows[window])
            } else {
                None
            }),
    {
        self.windows.get(window)
    }

    pub fn contains_window(&self, window: WindowId) -> (r: bool)
        requires
            self.wf(),
        ensures
            r == self@.knows(window),
    {
        self.windows.contains(window)
    }

    /// The number that the window server gives a known window.
    pub fn window_server_id(&self, window: WindowId) -> (r: Option<WindowServerId>)
        requires
            self.wf(),
        ensures
            r == self@.server_id(window),
    {
        match self.windows.get(window) {
            Some(state) => state.info.sys_id,
            None => None,
        }
    }

    /// Whether a known window takes part in layouts.
    pub fn is_admitted(&self, window: WindowId) -> (r: bool)
        requires
            self.wf(),
        ensures
            r == self@.admits(window),
    {
        match self.windows.get(window) {
            Some(state) => state.is_admitted(),
            None => false,
        }
    }

    pub fn insert_window(&mut self, window: WindowId, state: WindowState)
        requires
            old(self).wf(),
        ensures
            final(self).wf(),
            final(self)@ == old(self)@.with_window(window, state),
    {
        self.windows.insert(window, state);
    }

    pub fn remove_window(&mut self, window: WindowId)
        requires
            old(self).wf(),
        ensures
            final(self).wf(),
            final(self)@ == old(self)@.without_window(window),
    {
        self.windows.remove(window);
        self.visibility.remove(window);
    }

    /// Record the heuristic's word on a window.
    pub fn set_admission(&mut self, window: WindowId, admission: Admission)
        requires
            old(self).wf(),
        ensures
            final(self).wf(),
            final(self)@ == (if old(self)@.knows(window) {
                old(self)@.judged(window, admission)
            } else {
                old(self)@
            }),
    {
        let ghost before = self@;
        if let Some(state) = self.windows.take(window) {
            let mut state = state;
            state.admission = admission;
            self.windows.insert(window, state);
            assert(self@.windows =~= before.judged(window, admission).windows);
        } else {
            assert(self@.windows =~= before.windows);
        }
    }

    pub fn set_frame(&mut self, window: WindowId, frame: Rect)
        requires
            old(self).wf(),
        ensures
            final(self).wf(),
            final(self)@ == (if old(self)@.knows(window) {
                old(self)@.framed(window, frame)
            } else {
                old(self)@
            }),
    {
        let ghost before = self@;
        if let Some(state) = self.windows.take(window) {
            let mut state = state;
            state.frame_monotonic = frame;
            self.windows.insert(window, state);
            assert(self@.windows =~= before.framed(window, frame).windows);
        } else {
            assert(self@.windows =~= before.windows);
        }
    }

    pub fn set_title(&mut self, window: WindowId, title: String)
        requires
            old(self).wf(),
        ensures
            final(self).wf(),
            final(self)@ == (if old(self)@.knows(window) {
                old(self)@.titled(window, title)
            } else {
                old(self)@
            }),
    {
        let ghost before = self@;
        if let Some(state) = self.windows.take(window) {
            let mut state = state;
            state.info.title = title;
            self.windows.insert(window, state);
            assert(self@.windows =~= before.titled(window, title).windows);
        } else {
            assert(self@.windows =~= before.windows);
        }
    }

    pub fn set_minimized(&mut self, window: WindowId, is_minimized: bool)
        requires
            old(self).wf(),
        ensures
            final(self).wf(),
            final(self)@ == (if old(self)@.knows(window) {
                old(self)@.minimized(window, is_minimized)
            } else {
                old(self)@
            }),
    {
        let ghost before = self@;
        if let Some(state) = self.windows.take(window) {
            let mut state = state;
            state.info.is_minimized = is_minimized;
            self.windows.insert(window, state);
            assert(self@.windows =~= before.minimized(window, is_minimized).windows);
        } else {
            assert(self@.windows =~= before.windows);
        }
    }

    pub fn set_visibility(&mut self, window: WindowId, visibility: WindowVisibility)
        requires
            old(self).wf(),
        ensures
            final(self).wf(),
            final(self)@ == old(self)@.with_visibility(window, visibility),
    {
        self.visibility.insert(window, visibility);
    }

    pub fn track_window_server_id(&mut self, id: WindowServerId, window: WindowId)
        requires
            old(self).wf(),
        ensures
            final(self).wf(),
            final(self)@ == old(self)@.owned_by(id, window),
    {
        self.server_ids.insert(id, window);
    }

    pub fn clear_window_server_observed(&mut self, id: WindowServerId)
        requires
            old(self).wf(),
        ensures
            final(self).wf(),
            final(self)@ == old(self)@.unobserved(id),
    {
        self.observed.remove(id);
    }

    pub fn track_window_server_info(&mut self, info: WindowServerInfo)
        requires
            old(self).wf(),
        ensures
            final(self).wf(),
            final(self)@ == old(self)@.with_server_info(info),
    {
        self.server_infos.insert(info.id, info);
    }

    pub fn remove_window_server_state(&mut self, id: WindowServerId)
        requires
            old(self).wf(),
        ensures
            final(self).wf(),
            final(self)@ == old(self)@.without_server_state(id),
    {
        self.server_ids.remove(id);
        self.server_infos.remove(id);
        self.server_spaces.remove(id);
        self.observed.remove(id);
        self.visible.remove(id);
    }

    pub fn mark_window_hidden(&mut self, id: WindowServerId)
        requires
            old(self).wf(),
        ensures
            final(self).wf(),
            final(self)@ == old(self)@.hidden(id),
    {
        self.visible.remove(id);
    }

    pub fn mark_window_visible(&mut self, id: WindowServerId)
        requires
            old(self).wf(),
        ensures
            final(self).wf(),
            final(self)@ == old(self)@.shown(id),
    {
        self.visible.insert(id, ());
    }

    pub fn set_window_server_space(&mut self, id: WindowServerId, space: Option<SpaceId>)
        requires
            old(self).wf(),
        ensures
            final(self).wf(),
            final(self)@ == old(self)@.in_space(id, space),
    {
        match space {
            Some(space) => self.server_spaces.insert(id, space),
            None => self.server_spaces.remove(id),
        }
    }
}

} // verus!
