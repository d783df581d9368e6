//! What the layout engine has answered to the questions that an event may
//! raise.

use crate::ids::{SpaceId, WindowId, WorkspaceId};
use crate::model::WindowDropAction;
use crate::settings::LayoutMode;
use crate::table::{Ident, Table};
use vstd::prelude::*;

verus! {

/// A window in a space.
#[derive(Clone, Copy, Debug, PartialEq, Eq, Structural)]
pub struct Placement {
    pub space: SpaceId,
    pub window: WindowId,
}

impl Ident for Placement {
    fn same(self, other: Self) -> (r: bool) {
        self == other
    }
}

/// Answers of the layout engine, taken before an event is handled.
#[derive(Debug)]
pub struct LayoutSnapshot {
    drop_actions: Table<SpaceId, WindowDropAction>,
    drop_scenes: Table<Placement, Vec<WindowId>>,
    floating: Table<WindowId, ()>,
    active_workspaces: Table<SpaceId, WorkspaceId>,
    workspaces: Table<Placement, WorkspaceId>,
    modes: Table<WorkspaceId, LayoutMode>,
}

/// A snapshot as a value.
#[verifier::ext_equal]
pub struct SnapshotView {
    /// The action that every drop in a space has, where there is one.
    pub drop_actions: Map<SpaceId, WindowDropAction>,
    /// The windows that a window can be dropped on.
    pub drop_scenes: Map<Placement, Vec<WindowId>>,
    pub floating: Set<WindowId>,
    pub active_workspaces: Map<SpaceId, WorkspaceId>,
    pub workspaces: Map<Placement, WorkspaceId>,
    pub modes: Map<WorkspaceId, LayoutMode>,
}

impl View for LayoutSnapshot {
    type V = SnapshotView;

    closed spec fn view(&self) -> SnapshotView {
        SnapshotView {
            drop_actions: self.drop_actions@,
            drop_scenes: self.drop_scenes@,
            floating: self.floating@.dom(),
            active_workspaces: self.active_workspaces@,
            workspaces: self.workspaces@,
            modes: self.modes@,
        }
    }
}

/// The value of a key, where it has one.
pub open spec fn lookup<K, V>(map: Map<K, V>, key: K) -> Option<V> {
    if map.dom().contains(key) {
        Some(map[key])
    } else {
        None
    }
}

impl SnapshotView {
    pub open spec fn drop_action(self, space: SpaceId) -> Option<WindowDropAction> {
        lookup(self.drop_actions, space)
    }

    pub open spec fn drop_windows(self, space: SpaceId, source: WindowId) -> Seq<WindowId> {
        match lookup(self.drop_scenes, Placement { space, window: source }) {
            Some(windows) => windows@,
            None => Seq::empty(),
        }
    }

    pub open spec fn floats(self, window: WindowId) -> bool {
        self.floating.contains(window)
    }

    pub open spec fn active(self, space: SpaceId) -> Option<WorkspaceId> {
        lookup(self.active_workspaces, space)
    }

    pub open spec fn workspace(self, space: SpaceId, window: WindowId) -> Option<WorkspaceId> {
        lookup(self.workspaces, Placement { space, window })
    }

    pub open spec fn mode(self, workspace: WorkspaceId) -> Option<LayoutMode> {
        lookup(self.modes, workspace)
    }

    /// A snapshot without answers.
    pub open spec fn blank() -> SnapshotView {
        SnapshotView {
            drop_actions: Map::empty(),
            drop_scenes: Map::empty(),
            floating: Set::empty(),
            active_workspaces: Map::empty(),
            workspaces: Map::empty(),
            modes: Map::empty(),
        }
    }
}

fn found<K: Ident, V: Copy>(table: &Table<K, V>, key: K) -> (r: Option<V>)
    requires
        table.wf(),
    ensures
        r == lookup(table@, key),
{
    match table.get(key) {
        Some(value) => Some(*value),
        None => None,
    }
}

impl LayoutSnapshot {
    pub closed spec fn wf(self) -> bool {
        self.drop_actions.wf() && self.drop_scenes.wf() && self.floating.wf()
            && self.active_workspaces.wf() && self.workspaces.wf() && self.modes.wf()
    }

    pub fn new() -> (r: LayoutSnapshot)
        ensures
            r.wf(),
            r@ == SnapshotView::blank(),
    {
        let r = LayoutSnapshot {
            drop_actions: Table::new(),
            drop_scenes: Table::new(),
            floating: Table::new(),
            active_workspaces: Table::new(),
            workspaces: Table::new(),
            modes: Table::new(),
        };
        assert(r@.floating =~= Set::<WindowId>::empty());
        r
    }

    /// Note the action that every drop in `space` has.
    pub fn note_drop_action(&mut self, space: SpaceId, action: WindowDropAction)
        requires
            old(self).wf(),
        ensures
            final(self).wf(),
            final(self)@ == (SnapshotView {
                drop_actions: old(self)@.drop_actions.insert(space, action),
                ..old(self)@
            }),
    {
        self.drop_actions.insert(space, action);
    }

    /// Note the windows of `space` that `source` can be dropped on.
    pub fn note_drop_scene(&mut self, space: SpaceId, source: WindowId, windows: Vec<WindowId>)
        requires
            old(self).wf(),
        ensures
            final(self).wf(),
            final(self)@ == (SnapshotView {
                drop_scenes: old(self)@.drop_scenes.insert(
                    Placement { space, window: source },
                    windows,
                ),
                ..old(self)@
            }),
    {
        self.drop_scenes.insert(Placement { space, window: source }, windows);
    }

    /// Note that `window` floats.
    pub fn note_floating(&mut self, window: WindowId)
        requires
            old(self).wf(),
        ensures
            final(self).wf(),
            final(self)@ == (SnapshotView {
                floating: old(self)@.floating.insert(window),
                ..old(self)@
            }),
    {
        self.floating.insert(window, ());
    }

    /// Note the workspace that `space` shows.
    pub fn note_active_workspace(&mut self, space: SpaceId, workspace: WorkspaceId)
        requires
            old(self).wf(),
        ensures
            final(self).wf(),
            final(self)@ == (SnapshotView {
                active_workspaces: old(self)@.active_workspaces.insert(space, workspace),
                ..old(self)@
            }),
    {
        self.active_workspaces.insert(space, workspace);
    }

    /// Note the workspace of `space` that has `window`.
    pub fn note_workspace(&mut self, space: SpaceId, window: WindowId, workspace: WorkspaceId)
        requires
            old(self).wf(),
        ensures
            final(self).wf(),
            final(self)@ == (SnapshotView {
                workspaces: old(self)@.workspaces.insert(Placement { space, window }, workspace),
                ..old(self)@
            }),
    {
        self.workspaces.insert(Placement { space, window }, workspace);
    }

    /// Note how the windows of `workspace` are laid out.
    pub fn note_layout_mode(&mut self, workspace: WorkspaceId, mode: LayoutMode)
        requires
            old(self).wf(),
        ensures
            final(self).wf(),
            final(self)@ == (SnapshotView {
                modes: old(self)@.modes.insert(workspace, mode),
                ..old(self)@
            }),
    {
        self.modes.insert(workspace, mode);
    }

    /// The action that every drop in `space` has, where there is one.
    pub fn drop_action_override(&self, space: SpaceId) -> (r: Option<WindowDropAction>)
        requires
            self.wf(),
        ensures
            r == self@.drop_action(space),
    {
        found(&self.drop_actions, space)
    }

    /// The windows of `space` that `source` can be dropped on.
    pub fn drop_scene_windows(&self, space: SpaceId, source: WindowId) -> (r: Option<&Vec<WindowId>>)
        requires
            self.wf(),
        ensures
            match r {
                Some(windows) => windows@ == self@.drop_windows(space, source),
                None => self@.drop_windows(space, source) == Seq::<WindowId>::empty(),
            },
    {
        self.drop_scenes.get(Placement { space, window: source })
    }

    pub fn is_window_floating(&self, window: WindowId) -> (r: bool)
        requires
            self.wf(),
        ensures
            r == self@.floats(window),
    {
        self.floating.contains(window)
    }

    /// The workspace that `space` shows.
    pub fn active_workspace(&self, space: SpaceId) -> (r: Option<WorkspaceId>)
        requires
            self.wf(),
        ensures
            r == self@.active(space),
    {
        found(&self.active_workspaces, space)
    }

    /// The workspace of `space` that has `window`.
    pub fn workspace_for_window(&self, space: SpaceId, window: WindowId) -> (r: Option<WorkspaceId>)
        requires
            self.wf(),
        ensures
            r == self@.workspace(space, window),
    {
        found(&self.workspaces, Placement { space, window })
    }

    /// How the windows of `workspace` are laid out.
    pub fn layout_mode(&self, workspace: WorkspaceId) -> (r: Option<LayoutMode>)
        requires
            self.wf(),
        ensures
            r == self@.mode(workspace),
    {
        found(&self.modes, workspace)
    }
}

} // verus!
