//! What the reactor has to do once it has handled an event.

use crate::geometry::{Point, Rect};
use crate::ids::{ProcessId, SpaceId, WindowId, WorkspaceId};
use crate::model::WindowDropAction;
use crate::table::Table;
use vstd::prelude::*;

verus! {

/// The screens that a resize is judged by: their spaces, frames and names.
pub type Screens = Vec<(SpaceId, Rect, Option<String>)>;

/// Something that the layouts have to react to.
#[derive(Debug)]
pub enum LayoutEvent {
    WindowAdded(SpaceId, WindowId),
    WindowRemoved(WindowId),
    WindowRemovedPreserveFloating(WindowId),
    WindowFocused(SpaceId, WindowId),
    WindowResized { wid: WindowId, old_frame: Rect, new_frame: Rect, screens: Screens },
}

/// Something that the layout engine is told to do before it hears of any
/// event.
#[derive(Clone, Copy, Debug, PartialEq, Eq, Structural)]
pub enum LayoutCommand {
    AssignWindow { space: SpaceId, window: WindowId, workspace: WorkspaceId },
    RemoveFloatingPosition { window: WindowId },
    StoreFloatingPosition {
        space: SpaceId,
        workspace: WorkspaceId,
        window: WindowId,
        frame: Rect,
    },
}

/// A drop that the layout engine is asked to carry out.
#[derive(Clone, Copy, Debug, PartialEq, Eq, Structural)]
pub struct WindowDropRequest {
    pub source: WindowId,
    pub target: WindowId,
    pub space: SpaceId,
    pub action: WindowDropAction,
}

/// What changed.
#[derive(Clone, Copy, Debug, PartialEq, Eq, Structural)]
pub enum OutcomeChange {
    /// The event was not for the reactor to act on.
    Unconcerned,
    Nothing,
    Layout { resize: bool },
    Membership { removed: bool, added: bool },
}

/// A frame that a window is given before the layouts react.
#[derive(Clone, Copy, Debug, PartialEq, Eq, Structural)]
pub struct FrameWrite {
    pub window: WindowId,
    pub frame: Rect,
    pub restores: bool,
}

/// A title that changed.
#[derive(Debug)]
pub struct TitleBroadcast {
    pub window: WindowId,
    pub previous_title: String,
    pub new_title: String,
}

/// What reaches an application, by its number in the registry of
/// applications.
#[derive(Clone, Copy, Debug, PartialEq, Eq, Structural)]
pub struct AppHandle {
    pub id: u64,
}

#[derive(Clone, Copy, Debug, PartialEq, Eq, Structural)]
pub enum Quiet {
    Yes,
    No,
}

/// Windows that are to be raised and focused.
#[derive(Debug)]
pub struct RaiseRequest {
    pub raise_windows: Vec<Vec<WindowId>>,
    pub focus_window: Option<(WindowId, Option<Point>)>,
    pub app_handles: Table<ProcessId, AppHandle>,
    pub focus_quiet: Quiet,
}

#[derive(Debug)]
pub struct EventOutcome {
    pub change: OutcomeChange,
    pub layout_commands: Vec<LayoutCommand>,
    pub layout_events: Vec<LayoutEvent>,
    /// How often the windows are arranged, where that is settled.
    pub arrange_passes: Option<u8>,
    pub is_resize: bool,
    pub dispatch_mouse_up: bool,
    pub created_window: Option<WindowId>,
    pub frame_write: Option<FrameWrite>,
    pub title_broadcast: Option<TitleBroadcast>,
    pub reapply_app_rules: Vec<WindowId>,
    pub raise_request: Option<RaiseRequest>,
}

/// A raise request as a value.
#[verifier::ext_equal]
pub struct RaiseView {
    pub raise_windows: Seq<Seq<WindowId>>,
    pub focus_window: Option<(WindowId, Option<Point>)>,
    pub app_handles: Map<ProcessId, AppHandle>,
    pub focus_quiet: Quiet,
}

/// An outcome as a value.
#[verifier::ext_equal]
pub struct OutcomeView {
    pub change: OutcomeChange,
    pub layout_commands: Seq<LayoutCommand>,
    pub layout_events: Seq<LayoutEvent>,
    pub arrange_passes: Option<u8>,
    pub is_resize: bool,
    pub dispatch_mouse_up: bool,
    pub created_window: Option<WindowId>,
    pub frame_write: Option<FrameWrite>,
    pub title_broadcast: Option<TitleBroadcast>,
    pub reapply_app_rules: Seq<WindowId>,
    pub raise_request: Option<RaiseView>,
}

impl View for RaiseRequest {
    type V = RaiseView;

    open spec fn view(&self) -> RaiseView {
        RaiseView {
            raise_windows: self.raise_windows@.map_values(|windows: Vec<WindowId>| windows@),
            focus_window: self.focus_window,
            app_handles: self.app_handles@,
            focus_quiet: self.focus_quiet,
        }
    }
}

impl View for EventOutcome {
    type V = OutcomeView;

    open spec fn view(&self) -> OutcomeView {
        OutcomeView {
            change: self.change,
            layout_commands: self.layout_commands@,
            layout_events: self.layout_events@,
            arrange_passes: self.arrange_passes,
            is_resize: self.is_resize,
            dispatch_mouse_up: self.dispatch_mouse_up,
            created_window: self.created_window,
            frame_write: self.frame_write,
            title_broadcast: self.title_broadcast,
            reapply_app_rules: self.reapply_app_rules@,
            raise_request: match self.raise_request {
                Some(request) => Some(request@),
                None => None,
            },
        }
    }
}

impl OutcomeView {
    /// An outcome of which nothing but the change is said.
    pub open spec fn plain(change: OutcomeChange) -> OutcomeView {
        OutcomeView {
            change,
            layout_commands: Seq::empty(),
            layout_events: Seq::empty(),
            arrange_passes: None,
            is_resize: false,
            dispatch_mouse_up: false,
            created_window: None,
            frame_write: None,
            title_broadcast: None,
            reapply_app_rules: Seq::empty(),
            raise_request: None,
        }
    }

    pub open spec fn unconcerned() -> OutcomeView {
        OutcomeView::plain(OutcomeChange::Unconcerned)
    }

    pub open spec fn no_change() -> OutcomeView {
        OutcomeView::plain(OutcomeChange::Nothing)
    }

    pub open spec fn layout_changed(resize: bool) -> OutcomeView {
        OutcomeView::plain(OutcomeChange::Layout { resize })
    }

    pub open spec fn membership_changed(removed: bool, added: bool) -> OutcomeView {
        OutcomeView::plain(OutcomeChange::Membership { removed, added })
    }

    pub open spec fn event(self, event: LayoutEvent) -> OutcomeView {
        OutcomeView { layout_events: self.layout_events.push(event), ..self }
    }

    pub open spec fn command(self, command: LayoutCommand) -> OutcomeView {
        OutcomeView { layout_commands: self.layout_commands.push(command), ..self }
    }

    /// The outcome with a frame that a window is given first.
    pub open spec fn writing(self, window: WindowId, frame: Rect, restores: bool) -> OutcomeView {
        OutcomeView { frame_write: Some(FrameWrite { window, frame, restores }), ..self }
    }

    pub open spec fn raise(self, request: RaiseView) -> OutcomeView {
        OutcomeView { raise_request: Some(request), ..self }
    }
}

impl EventOutcome {
    fn plain(change: OutcomeChange) -> (r: EventOutcome)
        ensures
            r@ == OutcomeView::plain(change),
    {
        EventOutcome {
            change,
            layout_commands: Vec::new(),
            layout_events: Vec::new(),
            arrange_passes: None,
            is_resize: false,
            dispatch_mouse_up: false,
            created_window: None,
            frame_write: None,
            title_broadcast: None,
            reapply_app_rules: Vec::new(),
            raise_request: None,
        }
    }

    /// The event was not for the reactor to act on.
    pub fn unconcerned() -> (r: EventOutcome)
        ensures
            r@ == OutcomeView::unconcerned(),
    {
        EventOutcome::plain(OutcomeChange::Unconcerned)
    }

    pub fn no_change() -> (r: EventOutcome)
        ensures
            r@ == OutcomeView::no_change(),
    {
        EventOutcome::plain(OutcomeChange::Nothing)
    }

    pub fn layout_changed(resize: bool) -> (r: EventOutcome)
        ensures
            r@ == OutcomeView::layout_changed(resize),
    {
        EventOutcome::plain(OutcomeChange::Layout { resize })
    }

    pub fn window_membership_changed(removed: bool, added: bool) -> (r: EventOutcome)
        ensures
            r@ == OutcomeView::membership_changed(removed, added),
    {
        EventOutcome::plain(OutcomeChange::Membership { removed, added })
    }

    pub fn with_layout_event(self, event: LayoutEvent) -> (r: EventOutcome)
        ensures
            r@ == self@.event(event),
    {
        let mut outcome = self;
        outcome.layout_events.push(event);
        outcome
    }

    pub fn with_layout_command(self, command: LayoutCommand) -> (r: EventOutcome)
        ensures
            r@ == self@.command(command),
    {
        let mut outcome = self;
        outcome.layout_commands.push(command);
        outcome
    }

    pub fn with_created_window_finalization(self, window: WindowId) -> (r: EventOutcome)
        ensures
            r@ == (OutcomeView { created_window: Some(window), ..self@ }),
    {
        let mut outcome = self;
        outcome.created_window = Some(window);
        outcome
    }

    pub fn with_pre_layout_window_frame_write(
        self,
        window: WindowId,
        frame: Rect,
        restores: bool,
    ) -> (r: EventOutcome)
        ensures
            r@ == self@.writing(window, frame, restores),
    {
        let mut outcome = self;
        outcome.frame_write = Some(FrameWrite { window, frame, restores });
        outcome
    }

    pub fn with_window_title_broadcast(
        self,
        window: WindowId,
        previous_title: String,
        new_title: String,
    ) -> (r: EventOutcome)
        ensures
            r@ == (OutcomeView {
                title_broadcast: Some(TitleBroadcast { window, previous_title, new_title }),
                ..self@
            }),
    {
        let mut outcome = self;
        outcome.title_broadcast = Some(TitleBroadcast { window, previous_title, new_title });
        outcome
    }

    pub fn with_raise_request(self, request: RaiseRequest) -> (r: EventOutcome)
        ensures
            r@ == self@.raise(request@),
    {
        let mut outcome = self;
        outcome.raise_request = Some(request);
        outcome
    }

    pub fn with_arrange_passes(self, passes: u8) -> (r: EventOutcome)
        ensures
            r@ == (OutcomeView { arrange_passes: Some(passes), ..self@ }),
    {
        let mut outcome = self;
        outcome.arrange_passes = Some(passes);
        outcome
    }
}

} // verus!
