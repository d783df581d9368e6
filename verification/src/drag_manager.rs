//! The reactor's hold on the drag in progress.

use crate::drag::{fresh, ActorView, DragActor};
use crate::ids::WindowId;
use crate::model::{DragDropSettings, DropTarget};
use vstd::prelude::*;

verus! {

#[derive(Debug)]
pub struct DragManager {
    pub actor: DragActor,
    /// The window that the layouts leave alone while the pointer has it.
    pub externally_controlled_window: Option<WindowId>,
    /// The drop that a preview is shown of.
    pub preview: Option<DropTarget>,
}

/// A drag manager as a value.
#[verifier::ext_equal]
pub struct ManagerView {
    pub actor: ActorView,
    pub externally_controlled_window: Option<WindowId>,
    pub preview: Option<DropTarget>,
}

impl View for DragManager {
    type V = ManagerView;

    open spec fn view(&self) -> ManagerView {
        ManagerView {
            actor: self.actor@,
            externally_controlled_window: self.externally_controlled_window,
            preview: self.preview,
        }
    }
}

impl ManagerView {
    /// The preview shows the drop that the actor has found possible.
    pub open spec fn synced(self) -> ManagerView {
        ManagerView { preview: self.actor.target(), ..self }
    }

    pub open spec fn with_actor(self, actor: ActorView) -> ManagerView {
        ManagerView { actor, ..self }
    }

    /// No drag is in progress, and nothing is left of the last one.
    pub open spec fn at_rest(self) -> ManagerView {
        ManagerView {
            actor: self.actor.idle(),
            externally_controlled_window: None,
            preview: None,
        }
    }
}

impl DragManager {
    pub fn new(settings: DragDropSettings) -> (r: DragManager)
        ensures
            r@ == (ManagerView {
                actor: fresh(settings),
                externally_controlled_window: None,
                preview: None,
            }),
    {
        DragManager {
            actor: DragActor::new(settings),
            externally_controlled_window: None,
            preview: None,
        }
    }

    /// Show a preview of the drop that was found possible, if there is one.
    pub fn sync_preview(&mut self)
        ensures
            final(self)@ == old(self)@.synced(),
    {
        self.preview = self.actor.target();
    }

    pub fn release_preview(&mut self)
        ensures
            final(self)@ == (ManagerView { preview: None, ..old(self)@ }),
    {
        self.preview = None;
    }

    /// Give up whatever drag is in progress.
    pub fn reset(&mut self)
        ensures
            final(self)@ == old(self)@.at_rest(),
    {
        let _ = self.actor.cancel();
        self.release_preview();
        self.externally_controlled_window = None;
    }
}

} // verus!
