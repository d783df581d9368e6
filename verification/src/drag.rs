//! Single-owner drag interaction.
//!
//! The event tap only publishes the latest pointer value. What a drag means
//! is decided here, never in the tap.

use crate::geometry::{resize_from_anchor, resized_frame, Point, Rect, ResizeMeasure};
use crate::hit_test::{hit_test_available, HitQuery, MeasureView, SceneMeasure};
use crate::ids::{SpaceId, WindowId};
use crate::model::{
    same_choice, DragCancel, DragCommit, DragDropSettings, DragKind, DragScene, DragSceneTarget,
    DragSource, DropIntent, DropTarget, MouseAction, MouseButton, Rejected, SceneView,
};
use crate::publisher::DragMotion;
use vstd::prelude::*;

verus! {

/// Where the dragged window would be dropped.
#[derive(Clone, Copy, Debug)]
pub enum TargetState {
    Unset,
    /// The pointer asks for it; nobody has said yet that it is possible.
    Candidate(DropIntent),
    /// It is possible, and has a preview.
    Validated(DropTarget),
}

#[derive(Clone, Debug)]
pub struct Session {
    pub source: DragSource,
    button: MouseButton,
    pub pointer: Point,
    pub anchor_point: Point,
    pub scene: DragScene,
    target: TargetState,
    unavailable: Vec<Rejected>,
    pub kind: DragKind,
}

#[derive(Clone, Copy, Debug)]
pub enum StartKind {
    Native { window: WindowId },
    Modifier { button: MouseButton, point: Point, action: MouseAction },
}

#[derive(Clone, Copy, Debug)]
pub struct PendingStart {
    pub id: u64,
    pub kind: StartKind,
}

#[derive(Clone, Debug)]
pub enum State {
    Idle,
    AwaitingSource(PendingStart),
    Dragging(Session),
}

#[derive(Clone, Debug)]
pub struct DragActor {
    state: State,
    next_session_id: u64,
    settings: DragDropSettings,
}

/// How the frames of a native drag's source compare when the drag starts.
#[derive(Clone, Copy, Debug, PartialEq, Eq, Structural)]
pub struct NativeStart {
    /// The last frame has the size of the original one.
    pub size_kept: bool,
    /// The center of the last frame.
    pub center: Point,
}

/// What a pointer sample amounts to: the origin of a window that is moved by
/// it, the sides of one that is resized, and the scene as seen from it.
#[derive(Debug)]
pub struct MotionMeasure {
    /// The origin of the original frame, moved by as much as the pointer since
    /// the press.
    pub moved: Point,
    /// The original frame, resized by as much as the pointer has moved since
    /// the press.
    pub resize: ResizeMeasure,
    pub scene: SceneMeasure,
}

/// A session as a value.
#[verifier::ext_equal]
pub struct SessionView {
    pub source: DragSource,
    pub button: MouseButton,
    pub pointer: Point,
    pub anchor_point: Point,
    pub scene: SceneView,
    pub target: TargetState,
    pub unavailable: Seq<Rejected>,
    pub kind: DragKind,
}

#[verifier::ext_equal]
pub enum StateView {
    Idle,
    AwaitingSource(PendingStart),
    Dragging(SessionView),
}

/// A drag actor as a value.
#[verifier::ext_equal]
pub struct ActorView {
    pub state: StateView,
    pub next_session_id: u64,
    pub settings: DragDropSettings,
}

impl View for Session {
    type V = SessionView;

    closed spec fn view(&self) -> SessionView {
        SessionView {
            source: self.source,
            button: self.button,
            pointer: self.pointer,
            anchor_point: self.anchor_point,
            scene: self.scene@,
            target: self.target,
            unavailable: self.unavailable@,
            kind: self.kind,
        }
    }
}

impl View for State {
    type V = StateView;

    open spec fn view(&self) -> StateView {
        match self {
            State::Idle => StateView::Idle,
            State::AwaitingSource(pending) => StateView::AwaitingSource(*pending),
            State::Dragging(session) => StateView::Dragging(session@),
        }
    }
}

impl View for DragActor {
    type V = ActorView;

    closed spec fn view(&self) -> ActorView {
        ActorView {
            state: self.state@,
            next_session_id: self.next_session_id,
            settings: self.settings,
        }
    }
}

impl Default for State {
    fn default() -> (r: State)
        ensures
            r == State::Idle,
    {
        State::Idle
    }
}

impl TargetState {
    pub open spec fn spec_intent(self) -> Option<DropIntent> {
        match self {
            TargetState::Candidate(intent) => Some(intent),
            TargetState::Validated(target) => Some(target.intent),
            TargetState::Unset => None,
        }
    }

    pub open spec fn spec_validated(self) -> Option<DropTarget> {
        match self {
            TargetState::Validated(target) => Some(target),
            _ => None,
        }
    }

    /// The state in which an intent, if there is one, awaits validation.
    pub open spec fn awaiting(intent: Option<DropIntent>) -> TargetState {
        match intent {
            Some(intent) => TargetState::Candidate(intent),
            None => TargetState::Unset,
        }
    }

    #[verifier::when_used_as_spec(spec_intent)]
    fn intent(self) -> (r: Option<DropIntent>)
        ensures
            r == self.spec_intent(),
    {
        match self {
            TargetState::Candidate(intent) => Some(intent),
            TargetState::Validated(target) => Some(target.intent),
            TargetState::Unset => None,
        }
    }

    #[verifier::when_used_as_spec(spec_validated)]
    fn validated(self) -> (r: Option<DropTarget>)
        ensures
            r == self.spec_validated(),
    {
        match self {
            TargetState::Validated(target) => Some(target),
            TargetState::Unset | TargetState::Candidate(_) => None,
        }
    }

    fn candidate(intent: Option<DropIntent>) -> (r: TargetState)
        ensures
            r == TargetState::awaiting(intent),
    {
        match intent {
            Some(intent) => TargetState::Candidate(intent),
            None => TargetState::Unset,
        }
    }
}

impl SessionView {
    /// A session that has just begun.
    pub open spec fn begun(
        source: DragSource,
        button: MouseButton,
        pointer: Point,
        scene: SceneView,
        kind: DragKind,
    ) -> SessionView {
        SessionView {
            source,
            button,
            pointer,
            anchor_point: pointer,
            scene,
            target: TargetState::Unset,
            unavailable: Seq::empty(),
            kind,
        }
    }

    /// The session without a target and with nothing found impossible.
    pub open spec fn invalidated(self) -> SessionView {
        SessionView { target: TargetState::Unset, unavailable: Seq::empty(), ..self }
    }

    /// The session after its source was found in `space`.
    pub open spec fn in_space(self, space: Option<SpaceId>) -> SessionView {
        if self.source.current_space == space {
            self
        } else {
            SessionView {
                source: DragSource { current_space: space, ..self.source },
                ..self.invalidated()
            }
        }
    }

    /// Only a tiled window that is moved within its own space can be dropped
    /// on another.
    pub open spec fn droppable(self) -> bool {
        self.source.tiled && self.kind.moves() && self.source.origin_space
            == self.source.current_space
    }

    /// The drop that the session's scene offers for a pointer at `point`.
    pub open spec fn offer(
        self,
        settings: DragDropSettings,
        point: Point,
        previous: Option<DropIntent>,
        measure: MeasureView,
    ) -> Option<DropIntent> {
        HitQuery {
            scene: self.scene,
            point,
            fraction: settings.drop_zone_fraction,
            center: settings.drop_action,
            previous,
            unavailable: self.unavailable,
            source: Some(self.source),
            measure,
        }.intent()
    }

    /// The session over another scene.
    pub open spec fn over(
        self,
        scene: SceneView,
        settings: DragDropSettings,
        measure: MeasureView,
    ) -> SessionView {
        let fresh = SessionView { scene, ..self.invalidated() };
        if self.droppable() {
            SessionView {
                target: TargetState::awaiting(
                    fresh.offer(settings, self.pointer, self.target.spec_intent(), measure),
                ),
                ..fresh
            }
        } else {
            fresh
        }
    }

    /// The session after its intent was validated with a preview.
    pub open spec fn validated(self, intent: DropIntent, preview_area: Rect) -> SessionView {
        SessionView { target: TargetState::Validated(DropTarget { intent, preview_area }), ..self }
    }

    /// The session after its intent was found impossible.
    pub open spec fn rejected(
        self,
        intent: DropIntent,
        settings: DragDropSettings,
        measure: MeasureView,
    ) -> SessionView {
        let tried = SessionView { unavailable: self.unavailable.push(intent.rejection()), ..self };
        SessionView {
            target: TargetState::awaiting(tried.offer(settings, self.pointer, None, measure)),
            ..tried
        }
    }

    /// The session after its window was seen at `frame` in `space`.
    pub open spec fn natively_at(
        self,
        frame: Rect,
        space: Option<SpaceId>,
        size_kept: bool,
    ) -> SessionView {
        SessionView {
            source: DragSource { last_frame: frame, ..self.source },
            kind: native_kind(size_kept),
            ..self
        }.in_space(space)
    }

    /// The frame of the source once the pointer has moved.
    pub open spec fn frame_after(self, moved: Point, resize: ResizeMeasure) -> Rect {
        match self.kind {
            DragKind::ModifierMove => Rect {
                origin: moved,
                size: self.source.origin_frame.size,
            },
            DragKind::ModifierResize => resized_frame(
                self.source.origin_frame,
                self.anchor_point,
                resize,
            ),
            _ => self.source.last_frame,
        }
    }

    /// The session after the pointer has moved to `point`.
    pub open spec fn moved_to(
        self,
        point: Point,
        settings: DragDropSettings,
        moved: Point,
        resize: ResizeMeasure,
        measure: MeasureView,
    ) -> SessionView {
        let there = SessionView {
            source: DragSource { last_frame: self.frame_after(moved, resize), ..self.source },
            pointer: point,
            ..self
        };
        let next = if self.droppable() {
            there.offer(settings, point, self.target.spec_intent(), measure)
        } else {
            None
        };
        if same_choice(next, self.target.spec_intent()) {
            there
        } else {
            SessionView { target: TargetState::awaiting(next), ..there }
        }
    }

    /// The session after `window`, which is not its source, has gone.
    pub open spec fn without(self, window: WindowId) -> SessionView {
        SessionView {
            scene: SceneView {
                targets: self.scene.targets.filter(|t: DragSceneTarget| t.window != window),
                ..self.scene
            },
            target: if self.target.spec_intent() is Some
                && self.target.spec_intent()->0.window == window {
                TargetState::Unset
            } else {
                self.target
            },
            ..self
        }
    }

    /// A target exists only for a tiled window in its own space.
    pub open spec fn wf(self) -> bool {
        self.target is Unset || (self.source.tiled && self.source.origin_space
            == self.source.current_space)
    }
}

pub open spec fn native_kind(size_kept: bool) -> DragKind {
    if size_kept {
        DragKind::NativeMove
    } else {
        DragKind::NativeResize
    }
}

/// A new actor.
pub open spec fn fresh(settings: DragDropSettings) -> ActorView {
    ActorView { state: StateView::Idle, next_session_id: 1, settings }
}

impl ActorView {
    pub open spec fn wf(self) -> bool {
        self.state matches StateView::Dragging(session) ==> session.wf()
    }

    pub open spec fn session(self) -> Option<SessionView> {
        match self.state {
            StateView::Dragging(session) => Some(session),
            _ => None,
        }
    }

    pub open spec fn intent(self) -> Option<DropIntent> {
        match self.state {
            StateView::Dragging(session) => session.target.spec_intent(),
            _ => None,
        }
    }

    pub open spec fn target(self) -> Option<DropTarget> {
        match self.state {
            StateView::Dragging(session) => session.target.spec_validated(),
            _ => None,
        }
    }

    pub open spec fn idle(self) -> ActorView {
        ActorView { state: StateView::Idle, ..self }
    }

    pub open spec fn dragging(self, session: SessionView) -> ActorView {
        ActorView { state: StateView::Dragging(session), ..self }
    }

    /// The actor while the source of a new drag is looked up.
    pub open spec fn awaiting(self, kind: StartKind) -> ActorView {
        ActorView {
            state: StateView::AwaitingSource(PendingStart { id: self.next_session_id, kind }),
            next_session_id: if self.next_session_id == u64::MAX {
                0
            } else {
                (self.next_session_id + 1) as u64
            },
            ..self
        }
    }

    /// Whether the lookup with this id is the one that the actor waits for.
    pub open spec fn awaits(self, session_id: u64) -> bool {
        self.state matches StateView::AwaitingSource(pending) && pending.id == session_id
    }

    /// Whether the result of the awaited lookup is taken: a native drag only
    /// takes the window that it was announced for.
    pub open spec fn accepts(self, session_id: u64, source: Option<DragSource>) -> bool {
        self.awaits(session_id) && match (self.state->AwaitingSource_0.kind, source) {
            (StartKind::Native { window }, Some(source)) => window == source.window,
            _ => true,
        }
    }

    /// The actor after the lookup with this id has ended.
    pub open spec fn resolved(
        self,
        session_id: u64,
        source: Option<DragSource>,
        scene: SceneView,
        start: NativeStart,
    ) -> ActorView {
        if !self.awaits(session_id) {
            self
        } else {
            match (self.state->AwaitingSource_0.kind, source) {
                (_, None) => self.idle(),
                (StartKind::Native { window }, Some(source)) => if window == source.window {
                    self.dragging(
                        SessionView::begun(
                            source,
                            MouseButton::Left,
                            start.center,
                            scene,
                            native_kind(start.size_kept),
                        ),
                    )
                } else {
                    self.idle()
                },
                (StartKind::Modifier { button, point, action }, Some(source)) => match action {
                    MouseAction::Move => self.dragging(
                        SessionView::begun(source, button, point, scene, DragKind::ModifierMove),
                    ),
                    MouseAction::Resize => self.dragging(
                        SessionView::begun(source, button, point, scene, DragKind::ModifierResize),
                    ),
                    MouseAction::Ignore => self,
                },
            }
        }
    }

    /// Whether `window` is the source of a native drag.
    pub open spec fn natively_drags(self, window: WindowId) -> bool {
        self.state matches StateView::Dragging(session) && session.source.window == window
            && session.kind.native()
    }

    /// Whether `button` is the one that a drag was started with.
    pub open spec fn held_by(self, button: MouseButton) -> bool {
        self.state matches StateView::Dragging(session) && session.button == button
    }

    /// Whether the going of `window` ends what the actor is doing.
    pub open spec fn depends_on(self, window: WindowId) -> bool {
        match self.state {
            StateView::Idle => false,
            StateView::AwaitingSource(pending) => pending.kind == (StartKind::Native { window }),
            StateView::Dragging(session) => session.source.window == window,
        }
    }

    /// The actor after its source was found in `space`.
    pub open spec fn in_space(self, space: Option<SpaceId>) -> ActorView {
        match self.state {
            StateView::Dragging(session) => self.dragging(session.in_space(space)),
            _ => self,
        }
    }

    /// The actor over another scene.
    pub open spec fn over(self, scene: SceneView, measure: MeasureView) -> ActorView {
        match self.state {
            StateView::Dragging(session) => self.dragging(
                session.over(scene, self.settings, measure),
            ),
            _ => self,
        }
    }

    /// The actor after an intent was answered with the area of its preview, or
    /// with `None` where it is impossible. An answer to an intent that the
    /// pointer no longer asks for changes nothing.
    pub open spec fn answered(
        self,
        intent: DropIntent,
        preview_area: Option<Rect>,
        measure: MeasureView,
    ) -> ActorView {
        match self.state {
            StateView::Dragging(session) => if !same_choice(self.intent(), Some(intent)) {
                self
            } else {
                match preview_area {
                    Some(area) => self.dragging(session.validated(intent, area)),
                    None => self.dragging(session.rejected(intent, self.settings, measure)),
                }
            },
            _ => self,
        }
    }

    /// Whether `settings` gives drops another meaning.
    pub open spec fn reinterprets(self, settings: DragDropSettings) -> bool {
        self.settings.drop_action != settings.drop_action
            || !self.settings.drop_zone_fraction.same_number(settings.drop_zone_fraction)
    }

    /// The actor under other settings.
    pub open spec fn configured(self, settings: DragDropSettings) -> ActorView {
        let under = ActorView { settings, ..self };
        if !settings.enabled {
            under.idle()
        } else if self.reinterprets(settings) {
            match self.state {
                StateView::Dragging(session) => under.dragging(session.invalidated()),
                _ => under,
            }
        } else {
            under
        }
    }

    /// The actor after `window` was seen at `frame` in `space`.
    pub open spec fn natively_at(
        self,
        window: WindowId,
        frame: Rect,
        space: Option<SpaceId>,
        size_kept: bool,
    ) -> ActorView {
        match self.state {
            StateView::Dragging(session) => if self.natively_drags(window) {
                self.dragging(session.natively_at(frame, space, size_kept))
            } else {
                self
            },
            _ => self,
        }
    }

    /// The actor after the pointer has moved to `point`.
    pub open spec fn moved_to(
        self,
        point: Point,
        moved: Point,
        resize: ResizeMeasure,
        measure: MeasureView,
    ) -> ActorView {
        match self.state {
            StateView::Dragging(session) => self.dragging(
                session.moved_to(point, self.settings, moved, resize, measure),
            ),
            _ => self,
        }
    }

    /// What the release of `button` commits.
    pub open spec fn commit(self, button: MouseButton) -> Option<DragCommit> {
        match self.state {
            StateView::Dragging(session) => if session.button == button {
                Some(
                    DragCommit {
                        source: session.source,
                        target: session.target.spec_validated(),
                        pointer: session.pointer,
                        kind: session.kind,
                    },
                )
            } else {
                None
            },
            _ => None,
        }
    }

    /// The actor after `button` was released.
    pub open spec fn released(self, button: MouseButton) -> ActorView {
        if self.held_by(button) {
            self.idle()
        } else {
            self
        }
    }

    /// The source of the drag is not in `space` so far.
    pub open spec fn changes_space(self, space: Option<SpaceId>) -> bool {
        self.state matches StateView::Dragging(session) && session.source.current_space != space
    }

    /// The answer to an intent leaves another one to be answered.
    pub open spec fn asks_again(
        self,
        intent: DropIntent,
        preview_area: Option<Rect>,
        measure: MeasureView,
    ) -> bool {
        same_choice(self.intent(), Some(intent)) && preview_area is None && self.answered(
            intent,
            preview_area,
            measure,
        ).intent() is Some
    }

    /// The actor asks for another drop than `after`.
    pub open spec fn asks_otherwise(self, after: ActorView) -> bool {
        !same_choice(after.intent(), self.intent())
    }

    /// The window that is to be written a frame, and the frame: that of a drag
    /// which the system does not carry out itself.
    pub open spec fn frame_to_write(self) -> Option<(WindowId, Rect)> {
        match self.state {
            StateView::Dragging(session) => if session.kind.native() {
                None
            } else {
                Some((session.source.window, session.source.last_frame))
            },
            _ => None,
        }
    }

    /// What is said of a drag that is given up.
    pub open spec fn given_up(self) -> Option<DragCancel> {
        match self.state {
            StateView::Dragging(session) => Some(
                DragCancel { source: session.source, kind: session.kind },
            ),
            _ => None,
        }
    }

    /// The actor once the system drags the window of `source`.
    pub open spec fn natively_begun(
        self,
        source: DragSource,
        scene: SceneView,
        start: NativeStart,
        session_size_kept: bool,
    ) -> ActorView {
        if self.natively_drags(source.window) {
            self.natively_at(
                source.window,
                source.last_frame,
                source.current_space,
                session_size_kept,
            )
        } else {
            self.awaiting(StartKind::Native { window: source.window }).dragging(
                SessionView::begun(
                    source,
                    MouseButton::Left,
                    start.center,
                    scene,
                    native_kind(start.size_kept),
                ),
            )
        }
    }

    /// The actor after `window` has gone.
    pub open spec fn without(self, window: WindowId) -> ActorView {
        match self.state {
            StateView::Dragging(session) => if session.source.window == window {
                self.idle()
            } else {
                self.dragging(session.without(window))
            },
            _ => if self.depends_on(window) {
                self.idle()
            } else {
                self
            },
        }
    }
}

impl Session {
    fn new(
        source: DragSource,
        button: MouseButton,
        pointer: Point,
        scene: DragScene,
        kind: DragKind,
    ) -> (r: Session)
        ensures
            r@ == SessionView::begun(source, button, pointer, scene@, kind),
    {
        Session {
            source,
            button,
            pointer,
            anchor_point: pointer,
            scene,
            target: TargetState::Unset,
            unavailable: Vec::new(),
            kind,
        }
    }

    fn invalidate_drop(&mut self)
        ensures
            final(self)@ == old(self)@.invalidated(),
    {
        self.target = TargetState::Unset;
        self.unavailable.clear();
    }

    fn hit_test(
        &self,
        settings: DragDropSettings,
        previous: Option<DropIntent>,
        measure: &SceneMeasure,
    ) -> (r: Option<DropIntent>)
        requires
            measure.targets@.len() == self@.scene.targets.len(),
        ensures
            r == self@.offer(settings, self@.pointer, previous, measure@),
    {
        hit_test_available(
            &self.scene,
            self.pointer,
            settings.drop_zone_fraction,
            settings.drop_action,
            previous,
            &self.unavailable,
            Some(self.source),
            measure,
        )
    }

    fn can_drop(&self) -> (r: bool)
        ensures
            r == self@.droppable(),
    {
        self.source.tiled && self.kind.is_move() && self.source.origin_space
            == self.source.current_space
    }
}

fn native_drag_kind(size_kept: bool) -> (r: DragKind)
    ensures
        r == native_kind(size_kept),
{
    if size_kept {
        DragKind::NativeMove
    } else {
        DragKind::NativeResize
    }
}

fn retain_others(targets: &Vec<DragSceneTarget>, window: WindowId) -> (r: Vec<DragSceneTarget>)
    ensures
        r@ == targets@.filter(|t: DragSceneTarget| t.window != window),
{
    let ghost keep = |t: DragSceneTarget| t.window != window;
    let mut kept: Vec<DragSceneTarget> = Vec::new();
    let mut i: usize = 0;
    proof {
        reveal(Seq::filter);
        assert(targets@.take(0) =~= Seq::<DragSceneTarget>::empty());
    }
    while i < targets.len()
        invariant
            i <= targets@.len(),
            keep == (|t: DragSceneTarget| t.window != window),
            kept@ == targets@.take(i as int).filter(keep),
        decreases targets@.len() - i,
    {
        proof {
            reveal(Seq::filter);
            assert(targets@.take(i + 1).drop_last() =~= targets@.take(i as int));
        }
        if targets[i].window != window {
            kept.push(targets[i]);
        }
        i = i + 1;
    }
    assert(targets@.take(i as int) =~= targets@);
    kept
}

impl DragActor {
    pub fn new(settings: DragDropSettings) -> (r: DragActor)
        ensures
            r@ == fresh(settings),
    {
        DragActor { state: State::Idle, next_session_id: 1, settings }
    }

    pub fn is_active(&self) -> (r: bool)
        ensures
            r == !(self@.state is Idle),
    {
        match self.state {
            State::Idle => false,
            _ => true,
        }
    }

    /// The drag in progress.
    pub fn session(&self) -> (r: Option<&Session>)
        ensures
            r is Some <==> self@.session() is Some,
            r matches Some(session) ==> Some(session@) == self@.session(),
    {
        match &self.state {
            State::Dragging(session) => Some(session),
            _ => None,
        }
    }

    pub fn settings(&self) -> (r: DragDropSettings)
        ensures
            r == self@.settings,
    {
        self.settings
    }

    pub fn source(&self) -> (r: Option<DragSource>)
        ensures
            r == (match self@.session() {
                Some(session) => Some(session.source),
                None => None,
            }),
    {
        match self.session() {
            Some(session) => Some(session.source),
            None => None,
        }
    }

    /// The drop that was found possible.
    pub fn target(&self) -> (r: Option<DropTarget>)
        ensures
            r == self@.target(),
    {
        match self.session() {
            Some(session) => session.target.validated(),
            None => None,
        }
    }

    /// The drop that the pointer asks for.
    pub fn intent(&self) -> (r: Option<DropIntent>)
        ensures
            r == self@.intent(),
    {
        match self.session() {
            Some(session) => session.target.intent(),
            None => None,
        }
    }

    pub fn kind(&self) -> (r: Option<DragKind>)
        ensures
            r == (match self@.session() {
                Some(session) => Some(session.kind),
                None => None,
            }),
    {
        match self.session() {
            Some(session) => Some(session.kind),
            None => None,
        }
    }

    /// Update space membership and invalidate destination state.
    pub fn update_current_space(&mut self, current_space: Option<SpaceId>) -> (r: bool)
        ensures
            r == old(self)@.changes_space(current_space),
            final(self)@ == old(self)@.in_space(current_space),
    {
        let State::Dragging(session) = &mut self.state else {
            return false;
        };
        if session.source.current_space == current_space {
            return false;
        }
        session.source.current_space = current_space;
        session.invalidate_drop();
        true
    }

    /// Continue over another scene, with what was known of the old one
    /// forgotten.
    pub fn replace_scene(&mut self, scene: DragScene, measure: &SceneMeasure)
        requires
            old(self)@.session() is Some ==> measure.targets@.len() == scene.targets@.len(),
        ensures
            final(self)@ == old(self)@.over(scene@, measure@),
    {
        let settings = self.settings;
        let State::Dragging(session) = &mut self.state else {
            return;
        };
        let previous = session.target.intent();
        session.scene = scene;
        session.invalidate_drop();
        if session.can_drop() {
            session.target = TargetState::candidate(session.hit_test(settings, previous, measure));
        }
    }

    /// Take the answer to an intent: the area of its preview, or `None` where
    /// the drop is impossible. Returns whether another intent took its place.
    pub fn set_preview(
        &mut self,
        intent: DropIntent,
        preview_area: Option<Rect>,
        measure: &SceneMeasure,
    ) -> (r: bool)
        requires
            old(self)@.session() matches Some(session) ==> measure.targets@.len()
                == session.scene.targets.len(),
        ensures
            final(self)@ == old(self)@.answered(intent, preview_area, measure@),
            r == old(self)@.asks_again(intent, preview_area, measure@),
    {
        let settings = self.settings;
        let State::Dragging(session) = &mut self.state else {
            return false;
        };
        if session.target.intent() != Some(intent) {
            return false;
        }
        if let Some(preview_area) = preview_area {
            session.target = TargetState::Validated(DropTarget { intent, preview_area });
            return false;
        }
        session.unavailable.push((intent.window, intent.zone, intent.action));
        let next = session.hit_test(settings, None, measure);
        session.target = TargetState::candidate(next);
        next.is_some()
    }

    pub fn update_config(&mut self, settings: DragDropSettings)
        ensures
            final(self)@ == old(self)@.configured(settings),
    {
        let semantics_changed = self.settings.drop_action != settings.drop_action
            || !self.settings.drop_zone_fraction.equals(settings.drop_zone_fraction);
        self.settings = settings;
        if !settings.enabled {
            self.state = State::Idle;
        } else if semantics_changed {
            if let State::Dragging(session) = &mut self.state {
                session.invalidate_drop();
            }
        }
    }

    fn await_start(&mut self, kind: StartKind) -> (r: u64)
        ensures
            r == old(self)@.next_session_id,
            final(self)@ == old(self)@.awaiting(kind),
    {
        let id: u64 = self.next_session_id;
        self.next_session_id = self.next_session_id.wrapping_add(1);
        self.state = State::AwaitingSource(PendingStart { id, kind });
        id
    }

    /// Wait for the source of a drag that the system has begun.
    pub fn await_native(&mut self, window: WindowId) -> (r: u64)
        ensures
            r == old(self)@.next_session_id,
            final(self)@ == old(self)@.awaiting(StartKind::Native { window }),
    {
        self.await_start(StartKind::Native { window })
    }

    /// Wait for the source of a drag that a press with the modifier has begun.
    pub fn await_modifier(
        &mut self,
        button: MouseButton,
        point: Point,
        action: MouseAction,
    ) -> (r: u64)
        ensures
            r == old(self)@.next_session_id,
            final(self)@ == old(self)@.awaiting(StartKind::Modifier { button, point, action }),
    {
        self.await_start(StartKind::Modifier { button, point, action })
    }

    /// Complete source resolution. Stale results are ignored by session id.
    pub fn resolve_start(
        &mut self,
        session_id: u64,
        source: Option<DragSource>,
        scene: DragScene,
        start: NativeStart,
    ) -> (r: bool)
        ensures
            r == old(self)@.accepts(session_id, source),
            final(self)@ == old(self)@.resolved(session_id, source, scene@, start),
    {
        let State::AwaitingSource(pending) = &self.state else {
            return false;
        };
        let pending: PendingStart = *pending;
        if pending.id != session_id {
            return false;
        }
        let Some(source) = source else {
            self.state = State::Idle;
            return true;
        };
        match pending.kind {
            StartKind::Native { window } => {
                if window == source.window {
                    self.start_native_session(source, scene, start);
                    true
                } else {
                    self.state = State::Idle;
                    false
                }
            },
            StartKind::Modifier { button, point, action } => {
                self.start_modifier_session(source, button, point, action, scene);
                true
            },
        }
    }

    /// Begin a native drag, or continue the one that has the same window.
    /// `session_size_kept` says whether the last frame has the size that the
    /// window had when the drag in progress began.
    pub fn begin_native(
        &mut self,
        source: DragSource,
        scene: DragScene,
        start: NativeStart,
        session_size_kept: bool,
    )
        ensures
            final(self)@ == old(self)@.natively_begun(source, scene@, start, session_size_kept),
    {
        if self.update_native(
            source.window,
            source.last_frame,
            source.current_space,
            session_size_kept,
        ) {
            return;
        }
        let id: u64 = self.await_native(source.window);
        let _ = self.resolve_start(id, Some(source), scene, start);
    }

    fn start_native_session(&mut self, source: DragSource, scene: DragScene, start: NativeStart)
        ensures
            final(self)@ == old(self)@.dragging(
                SessionView::begun(
                    source,
                    MouseButton::Left,
                    start.center,
                    scene@,
                    native_kind(start.size_kept),
                ),
            ),
    {
        let kind = native_drag_kind(start.size_kept);
        self.state =
        State::Dragging(Session::new(source, MouseButton::Left, start.center, scene, kind));
    }

    /// Updates an existing native drag without rebuilding its immutable scene.
    ///
    /// `size_kept` says whether `frame` has the size that the window had when
    /// the drag began. Returns `true` when `window` owns the active native
    /// drag session.
    pub fn update_native(
        &mut self,
        window: WindowId,
        frame: Rect,
        current_space: Option<SpaceId>,
        size_kept: bool,
    ) -> (r: bool)
        ensures
            r == old(self)@.natively_drags(window),
            final(self)@ == old(self)@.natively_at(window, frame, current_space, size_kept),
    {
        let State::Dragging(session) = &mut self.state else {
            return false;
        };
        if session.source.window != window || !session.kind.is_native() {
            return false;
        }
        session.source.last_frame = frame;
        session.kind = native_drag_kind(size_kept);
        if session.source.current_space != current_space {
            session.source.current_space = current_space;
            session.invalidate_drop();
        }
        true
    }

    /// Begin a drag with the left button and the modifier held.
    pub fn begin_modifier(
        &mut self,
        source: DragSource,
        point: Point,
        action: MouseAction,
        scene: DragScene,
    )
        ensures
            final(self)@ == old(self)@.awaiting(
                StartKind::Modifier { button: MouseButton::Left, point, action },
            ).resolved(
                old(self)@.next_session_id,
                Some(source),
                scene@,
                NativeStart { size_kept: true, center: point },
            ),
    {
        let id: u64 = self.await_modifier(MouseButton::Left, point, action);
        let start = NativeStart { size_kept: true, center: point };
        let _ = self.resolve_start(id, Some(source), scene, start);
    }

    fn start_modifier_session(
        &mut self,
        source: DragSource,
        button: MouseButton,
        point: Point,
        action: MouseAction,
        scene: DragScene,
    )
        ensures
            final(self)@ == (match action {
                MouseAction::Move => old(self)@.dragging(
                    SessionView::begun(source, button, point, scene@, DragKind::ModifierMove),
                ),
                MouseAction::Resize => old(self)@.dragging(
                    SessionView::begun(source, button, point, scene@, DragKind::ModifierResize),
                ),
                MouseAction::Ignore => old(self)@,
            }),
    {
        let kind = match action {
            MouseAction::Move => DragKind::ModifierMove,
            MouseAction::Resize => DragKind::ModifierResize,
            MouseAction::Ignore => {
                return ;
            },
        };
        self.state = State::Dragging(Session::new(source, button, point, scene, kind));
    }

    /// Follow the pointer. Returns whether the drop that it asks for changed.
    pub fn motion(&mut self, motion: DragMotion, measure: &MotionMeasure) -> (r: bool)
        requires
            old(self)@.session() matches Some(session) ==> measure.scene.targets@.len()
                == session.scene.targets.len(),
        ensures
            r == old(self)@.asks_otherwise(final(self)@),
            final(self)@ == old(self)@.moved_to(
                motion.point,
                measure.moved,
                measure.resize,
                measure.scene@,
            ),
    {
        let settings = self.settings;
        let State::Dragging(session) = &mut self.state else {
            return false;
        };
        session.pointer = motion.point;
        match session.kind {
            DragKind::ModifierMove => {
                session.source.last_frame =
                Rect { origin: measure.moved, size: session.source.origin_frame.size };
            },
            DragKind::ModifierResize => {
                session.source.last_frame =
                resize_from_anchor(
                    session.source.origin_frame,
                    session.anchor_point,
                    measure.resize,
                );
            },
            DragKind::NativeMove | DragKind::NativeResize => {},
        }
        let next = if session.can_drop() {
            session.hit_test(settings, session.target.intent(), &measure.scene)
        } else {
            None
        };
        let changed = next != session.target.intent();
        if changed {
            session.target = TargetState::candidate(next);
        }
        changed
    }

    /// The frame that the window of a modifier drag is to have.
    pub fn interactive_update(&self) -> (r: Option<(WindowId, Rect)>)
        ensures
            r == self@.frame_to_write(),
    {
        let Some(session) = self.session() else {
            return None;
        };
        if session.kind.is_native() {
            None
        } else {
            Some((session.source.window, session.source.last_frame))
        }
    }

    /// End the drag that was started with `button`.
    pub fn finish(&mut self, button: MouseButton) -> (r: Option<DragCommit>)
        ensures
            r == old(self)@.commit(button),
            final(self)@ == old(self)@.released(button),
    {
        let State::Dragging(session) = &self.state else {
            return None;
        };
        if session.button != button {
            return None;
        }
        let commit = DragCommit {
            source: session.source,
            target: session.target.validated(),
            pointer: session.pointer,
            kind: session.kind,
        };
        self.state = State::Idle;
        Some(commit)
    }

    /// Give up what the actor is doing. Returns the drag that was in progress.
    pub fn cancel(&mut self) -> (r: Option<DragCancel>)
        ensures
            r == old(self)@.given_up(),
            final(self)@ == old(self)@.idle(),
    {
        let cancelled = match &self.state {
            State::Dragging(session) => Some(
                DragCancel { source: session.source, kind: session.kind },
            ),
            _ => None,
        };
        self.state = State::Idle;
        cancelled
    }

    /// Forget a window that has gone. Returns whether that ended what the
    /// actor was doing.
    pub fn window_removed(&mut self, window: WindowId) -> (r: bool)
        ensures
            r == old(self)@.depends_on(window),
            final(self)@ == old(self)@.without(window),
    {
        let ends = match &self.state {
            State::Idle => false,
            State::AwaitingSource(pending) => match pending.kind {
                StartKind::Native { window: pending } => pending == window,
                StartKind::Modifier { .. } => false,
            },
            State::Dragging(session) => session.source.window == window,
        };
        if ends {
            self.state = State::Idle;
            return true;
        }
        if let State::Dragging(session) = &mut self.state {
            session.scene.targets = retain_others(&session.scene.targets, window);
            if let Some(intent) = session.target.intent() {
                if intent.window == window {
                    session.target = TargetState::Unset;
                }
            }
        }
        false
    }
}

} // verus!
