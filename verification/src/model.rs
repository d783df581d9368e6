//! What a drag is about: its source, the scene it moves over, the intents it
//! forms and the results it ends with.

use crate::geometry::{Point, Rect};
use crate::ids::{SpaceId, WindowId};
use crate::scalar::Scalar;
use vstd::prelude::*;

verus! {

#[derive(Clone, Copy, Debug, PartialEq, Eq, Structural)]
pub enum MouseButton {
    Left,
    Right,
}

/// What a drag with the mouse modifier held does to the window.
#[derive(Clone, Copy, Debug, PartialEq, Eq, Structural)]
pub enum MouseAction {
    Move,
    Resize,
    Ignore,
}

/// What a drop on the center of another window does.
#[derive(Clone, Copy, Debug, PartialEq, Eq, Structural)]
pub enum MouseDropAction {
    Swap,
    Stack,
}

#[derive(Clone, Copy, Debug, PartialEq, Eq, Structural)]
pub enum Direction {
    Left,
    Right,
    Up,
    Down,
}

/// What the layout engine does with a dropped window.
#[derive(Clone, Copy, Debug, PartialEq, Eq, Structural)]
pub enum WindowDropAction {
    Swap,
    Stack,
    Insert(Direction),
    Move(Direction),
}

#[derive(Clone, Copy, Debug, PartialEq, Eq, Structural)]
pub struct DragDropSettings {
    pub enabled: bool,
    /// The share of a window's width or height that each edge zone takes.
    pub drop_zone_fraction: Scalar,
    pub drop_action: MouseDropAction,
}

#[derive(Clone, Copy, Debug, PartialEq, Eq, Structural)]
pub enum DragKind {
    NativeMove,
    NativeResize,
    ModifierMove,
    ModifierResize,
}

#[derive(Clone, Copy, Debug, PartialEq, Eq, Structural)]
pub struct DragSceneTarget {
    pub window: WindowId,
    pub space: SpaceId,
    pub frame: Rect,
}

#[derive(Clone, Debug)]
pub struct DragScene {
    /// Layout-wide semantic override. Stack layouts use Swap for every zone.
    pub action_override: Option<WindowDropAction>,
    pub targets: Vec<DragSceneTarget>,
}

#[derive(Clone, Copy, Debug, PartialEq, Eq, Structural)]
pub enum DropZone {
    Center,
    West,
    East,
    North,
    South,
}

#[derive(Clone, Copy, Debug)]
pub struct DropIntent {
    pub window: WindowId,
    pub space: SpaceId,
    pub frame: Rect,
    pub zone: DropZone,
    pub action: WindowDropAction,
}

#[derive(Clone, Copy, Debug)]
pub struct DropTarget {
    pub intent: DropIntent,
    pub preview_area: Rect,
}

#[derive(Clone, Copy, Debug, PartialEq, Eq, Structural)]
pub struct DragSource {
    pub window: WindowId,
    pub origin_frame: Rect,
    pub last_frame: Rect,
    pub origin_space: Option<SpaceId>,
    pub current_space: Option<SpaceId>,
    pub tiled: bool,
}

#[derive(Clone, Copy, Debug)]
pub struct DragCommit {
    pub source: DragSource,
    pub target: Option<DropTarget>,
    pub pointer: Point,
    pub kind: DragKind,
}

#[derive(Clone, Copy, Debug)]
pub struct DragCancel {
    pub source: DragSource,
    pub kind: DragKind,
}

/// A drop that was found impossible: its window, its zone and its action.
pub type Rejected = (WindowId, DropZone, WindowDropAction);

/// A scene as a value.
#[verifier::ext_equal]
pub struct SceneView {
    pub action_override: Option<WindowDropAction>,
    pub targets: Seq<DragSceneTarget>,
}

impl View for DragScene {
    type V = SceneView;

    open spec fn view(&self) -> SceneView {
        SceneView { action_override: self.action_override, targets: self.targets@ }
    }
}

impl SceneView {
    /// A scene without targets, in which every zone has its own action.
    pub open spec fn empty() -> SceneView {
        SceneView { action_override: None, targets: Seq::empty() }
    }
}

impl DragScene {
    /// A scene without targets, in which every zone has its own action.
    pub fn empty() -> (r: DragScene)
        ensures
            r@ == SceneView::empty(),
    {
        DragScene { action_override: None, targets: Vec::new() }
    }
}

impl Default for DragScene {
    fn default() -> (r: DragScene)
        ensures
            r@ == SceneView::empty(),
    {
        DragScene::empty()
    }
}

impl DragKind {
    /// Whether the drag moves its window and keeps its size.
    pub open spec fn moves(self) -> bool {
        self == DragKind::NativeMove || self == DragKind::ModifierMove
    }

    /// Whether the system, not the window manager, carries the window along.
    pub open spec fn native(self) -> bool {
        self == DragKind::NativeMove || self == DragKind::NativeResize
    }

    /// Whether the drag moves its window and keeps its size.
    pub fn is_move(self) -> (r: bool)
        ensures
            r == self.moves(),
    {
        match self {
            DragKind::NativeMove | DragKind::ModifierMove => true,
            DragKind::NativeResize | DragKind::ModifierResize => false,
        }
    }

    /// Whether the system, not the window manager, carries the window along.
    pub fn is_native(self) -> (r: bool)
        ensures
            r == self.native(),
    {
        match self {
            DragKind::NativeMove | DragKind::NativeResize => true,
            DragKind::ModifierMove | DragKind::ModifierResize => false,
        }
    }
}

impl DropIntent {
    /// Whether two intents ask for the same thing: the same action on the same
    /// window of the same space. Where in the window makes no difference.
    pub open spec fn same_intent(self, other: DropIntent) -> bool {
        self.window == other.window && self.space == other.space && self.action == other.action
    }

    /// What is remembered of the intent when it is found impossible.
    pub open spec fn rejection(self) -> Rejected {
        (self.window, self.zone, self.action)
    }
}

impl PartialEq for DropIntent {
    fn eq(&self, other: &Self) -> (r: bool) {
        self.window == other.window && self.space == other.space && self.action == other.action
    }
}

impl vstd::std_specs::cmp::PartialEqSpecImpl for DropIntent {
    open spec fn obeys_eq_spec() -> bool {
        true
    }

    open spec fn eq_spec(&self, other: &Self) -> bool {
        self.same_intent(*other)
    }
}

impl DropTarget {
    /// Whether two targets are the same zone of the same window of the same
    /// space.
    pub open spec fn same_target(self, other: DropTarget) -> bool {
        self.intent.window == other.intent.window && self.intent.space == other.intent.space
            && self.intent.zone == other.intent.zone
    }
}

impl PartialEq for DropTarget {
    fn eq(&self, other: &Self) -> (r: bool) {
        self.intent.window == other.intent.window && self.intent.space == other.intent.space
            && self.intent.zone == other.intent.zone
    }
}

impl vstd::std_specs::cmp::PartialEqSpecImpl for DropTarget {
    open spec fn obeys_eq_spec() -> bool {
        true
    }

    open spec fn eq_spec(&self, other: &Self) -> bool {
        self.same_target(*other)
    }
}

/// Whether two optional intents ask for the same thing, or both for nothing.
pub open spec fn same_choice(a: Option<DropIntent>, b: Option<DropIntent>) -> bool {
    match (a, b) {
        (None, None) => true,
        (Some(x), Some(y)) => x.same_intent(y),
        _ => false,
    }
}

impl From<MouseDropAction> for WindowDropAction {
    fn from(action: MouseDropAction) -> (r: Self) {
        match action {
            MouseDropAction::Swap => WindowDropAction::Swap,
            MouseDropAction::Stack => WindowDropAction::Stack,
        }
    }
}

impl vstd::std_specs::convert::FromSpecImpl<MouseDropAction> for WindowDropAction {
    open spec fn obeys_from_spec() -> bool {
        true
    }

    open spec fn from_spec(action: MouseDropAction) -> Self {
        match action {
            MouseDropAction::Swap => WindowDropAction::Swap,
            MouseDropAction::Stack => WindowDropAction::Stack,
        }
    }
}

/// Sameness of intents is an equivalence, so that a chain of unchanged
/// intents still asks for what the first one asked for.
pub proof fn law_same_choice_is_equivalence(
    a: Option<DropIntent>,
    b: Option<DropIntent>,
    c: Option<DropIntent>,
)
    ensures
        same_choice(a, a),
        same_choice(a, b) <==> same_choice(b, a),
        same_choice(a, b) && same_choice(b, c) ==> same_choice(a, c),
{
}

} // verus!
