use rift_drag::apps::{AppManager, AppState};
use rift_drag::drag::{MotionMeasure, NativeStart};
use rift_drag::drag_events::{
    build_drag_scene, handle_cancel, handle_mouse_up, join_final_space, keep_floating_position,
    MouseUpPayload, MouseUpStep, PendingMouseUp,
};
use rift_drag::drag_manager::DragManager;
use rift_drag::frame_events::{
    classify_window_frame_change, handle_mouse_up_if_needed, handle_window_frame_changed,
    FrameChangeDisposition, FrameComparison, WindowFrameChangedPayload,
};
use rift_drag::geometry::{AxisMeasure, Edges, Point, Rect, ResizeMeasure, Size};
use rift_drag::hit_test::{FrameMeasure, Ratios, SceneMeasure, TargetMeasure, ZoneEdges};
use rift_drag::ids::{
    ProcessId, SpaceId, TransactionId, WindowId, WindowServerId, WorkspaceId,
};
use rift_drag::layout::LayoutSnapshot;
use rift_drag::model::{
    DragDropSettings, DragKind, DragScene, DragSceneTarget, DragSource, DropIntent, DropZone, MouseAction,
    MouseButton, MouseDropAction, WindowDropAction,
};
use rift_drag::outcome::{
    AppHandle, EventOutcome, LayoutCommand, LayoutEvent, OutcomeChange, Quiet, WindowDropRequest,
};
use rift_drag::publisher::DragMotion;
use rift_drag::scalar::Scalar;
use rift_drag::settings::{LayoutMode, MouseState};
use rift_drag::transactions::TransactionManager;
use rift_drag::window_events::{
    handle_mouse_moved_over_window, handle_window_created, handle_window_deminiaturized,
    handle_window_destroyed, handle_window_minimized, handle_window_title_changed,
    MouseMovedPayload, WindowCreatedPayload, WindowDeminiaturizedPayload, WindowDestroyedPayload,
    WindowTitleChangedPayload,
};
use rift_drag::windows::{Admission, RiftState, WindowInfo, WindowServerInfo};

fn s(value: f64) -> Scalar {
    Scalar::from_bits(value.to_bits())
}

fn point(x: f64, y: f64) -> Point {
    Point { x: s(x), y: s(y) }
}

fn frame(x: f64, y: f64, width: f64, height: f64) -> Rect {
    Rect { origin: point(x, y), size: Size { width: s(width), height: s(height) } }
}

fn rect() -> Rect {
    frame(0.0, 0.0, 200.0, 100.0)
}

fn w(idx: u32) -> WindowId {
    WindowId::new(1, idx)
}

fn server(idx: u32) -> WindowServerId {
    WindowServerId::new(100 + idx)
}

fn space(raw: u64) -> SpaceId {
    SpaceId::new(raw)
}

fn workspace(raw: u64) -> WorkspaceId {
    WorkspaceId { raw }
}

fn admitted() -> Admission {
    Admission { admitted: true, can_reconcile: true }
}

fn rejected() -> Admission {
    Admission { admitted: false, can_reconcile: false }
}

fn info(idx: u32) -> WindowInfo {
    WindowInfo {
        title: "untitled".to_string(),
        frame: rect(),
        sys_id: Some(server(idx)),
        is_minimized: false,
    }
}

fn created(idx: u32) -> WindowCreatedPayload {
    WindowCreatedPayload {
        window_id: w(idx),
        window: info(idx),
        window_server_info: Some(WindowServerInfo {
            id: server(idx),
            pid: 1,
            layer: 0,
            frame: rect(),
        }),
    }
}

fn with_windows(count: u32) -> (RiftState, TransactionManager) {
    let mut state = RiftState::new();
    let mut transactions = TransactionManager::new();
    for idx in 1..=count {
        handle_window_created(&mut state, &mut transactions, created(idx), admitted());
    }
    (state, transactions)
}

fn settings() -> DragDropSettings {
    DragDropSettings {
        enabled: true,
        drop_zone_fraction: s(0.25),
        drop_action: MouseDropAction::Swap,
    }
}

fn manager() -> DragManager {
    DragManager::new(settings())
}

fn source(idx: u32, tiled: bool, last_frame: Rect) -> DragSource {
    DragSource {
        window: w(idx),
        origin_frame: rect(),
        last_frame,
        origin_space: Some(space(1)),
        current_space: Some(space(1)),
        tiled,
    }
}

fn start() -> NativeStart {
    NativeStart { size_kept: true, center: point(100.0, 50.0) }
}

fn dragging(action: MouseAction, tiled: bool, last_frame: Rect) -> DragManager {
    let mut drag = manager();
    drag.actor.begin_modifier(
        source(1, tiled, last_frame),
        point(10.0, 10.0),
        action,
        DragScene::empty(),
    );
    drag.externally_controlled_window = Some(w(1));
    drag
}

fn unremarkable(outcome: &EventOutcome, change: OutcomeChange) -> bool {
    outcome.change == change
        && outcome.layout_commands.is_empty()
        && outcome.layout_events.is_empty()
        && outcome.arrange_passes.is_none()
        && !outcome.is_resize
        && !outcome.dispatch_mouse_up
        && outcome.created_window.is_none()
        && outcome.frame_write.is_none()
        && outcome.title_broadcast.is_none()
        && outcome.reapply_app_rules.is_empty()
        && outcome.raise_request.is_none()
}

fn moved_to(new_frame: Rect) -> WindowFrameChangedPayload {
    WindowFrameChangedPayload {
        window: w(1),
        new_frame,
        mouse_state: None,
        old_space: Some(space(1)),
        new_space: Some(space(1)),
        old_space_active: true,
        new_space_active: true,
        active_resize_space: Some(space(1)),
        pending_target_space: None,
        assigned_space: None,
        keep_assigned_for_scrolling: false,
        screens: vec![(space(1), rect(), Some("main".to_string()))],
    }
}

fn seen(size_kept: bool) -> FrameComparison {
    FrameComparison {
        unchanged: false,
        size_kept,
        session_size_kept: size_kept,
        center: point(110.0, 50.0),
    }
}

#[test]
fn created_windows_are_known_and_expected_at_their_frame() {
    let mut state = RiftState::new();
    let mut transactions = TransactionManager::new();
    let outcome =
        handle_window_created(&mut state, &mut transactions, created(1), admitted());
    assert_eq!(outcome.change, OutcomeChange::Membership { removed: false, added: true });
    assert_eq!(outcome.created_window, Some(w(1)));
    let window = state.windows.window(w(1)).unwrap();
    assert_eq!(window.frame_monotonic, rect());
    assert_eq!(window.info.sys_id, Some(server(1)));
    assert_eq!(transactions.get_target_frame(server(1)), Some(rect()));
    assert_eq!(transactions.get_last_sent_txid(server(1)), TransactionId { raw: 0 });

    transactions.store_txid(server(2), TransactionId { raw: 9 }, frame(1.0, 1.0, 1.0, 1.0));
    let outcome =
        handle_window_created(&mut state, &mut transactions, created(2), rejected());
    assert_eq!(outcome.created_window, None);
    assert_eq!(transactions.get_target_frame(server(2)), Some(rect()));
    assert_eq!(transactions.get_last_sent_txid(server(2)), TransactionId { raw: 9 });
    assert!(!state.windows.is_admitted(w(2)));
}

#[test]
fn destroyed_windows_are_forgotten_once() {
    let (mut state, mut transactions) = with_windows(2);
    let mut drag = dragging(MouseAction::Move, true, rect());
    let gone = WindowDestroyedPayload { window: w(1) };
    let outcome = handle_window_destroyed(&mut state, &mut transactions, &mut drag, gone);
    assert_eq!(outcome.change, OutcomeChange::Membership { removed: true, added: false });
    assert!(matches!(outcome.layout_events[..], [LayoutEvent::WindowRemoved(id)] if id == w(1)));
    assert!(!state.windows.contains_window(w(1)));
    assert!(state.windows.contains_window(w(2)));
    assert_eq!(transactions.get_target_frame(server(1)), None);
    assert_eq!(transactions.get_target_frame(server(2)), Some(rect()));
    assert!(!drag.actor.is_active());
    assert_eq!(drag.externally_controlled_window, None);

    let again = handle_window_destroyed(&mut state, &mut transactions, &mut drag, gone);
    assert!(unremarkable(&again, OutcomeChange::Nothing));
}

#[test]
fn minimized_windows_leave_and_come_back() {
    let (mut state, _) = with_windows(1);
    let outcome = handle_window_minimized(&mut state, w(1), rejected());
    assert_eq!(outcome.change, OutcomeChange::Membership { removed: false, added: false });
    assert!(matches!(outcome.layout_events[..], [LayoutEvent::WindowRemoved(id)] if id == w(1)));
    assert!(state.windows.window(w(1)).unwrap().info.is_minimized);
    assert!(!state.windows.is_admitted(w(1)));
    let again = handle_window_minimized(&mut state, w(1), admitted());
    assert!(unremarkable(&again, OutcomeChange::Nothing));
    assert!(!state.windows.is_admitted(w(1)));

    let shown = WindowDeminiaturizedPayload { window: w(1), active_space: Some(space(4)) };
    let outcome = handle_window_deminiaturized(&mut state, shown, admitted());
    assert!(matches!(
        outcome.layout_events[..],
        [LayoutEvent::WindowAdded(at, id)] if at == space(4) && id == w(1)
    ));
    assert!(!state.windows.window(w(1)).unwrap().info.is_minimized);
    let again = handle_window_deminiaturized(&mut state, shown, admitted());
    assert!(unremarkable(&again, OutcomeChange::Nothing));

    handle_window_minimized(&mut state, w(1), rejected());
    let outcome = handle_window_deminiaturized(&mut state, shown, rejected());
    assert!(unremarkable(&outcome, OutcomeChange::Nothing));
    assert!(!state.windows.window(w(1)).unwrap().info.is_minimized);

    let unknown = handle_window_minimized(&mut state, w(9), admitted());
    assert!(unremarkable(&unknown, OutcomeChange::Nothing));
}

#[test]
fn new_titles_are_broadcast() {
    let (mut state, _) = with_windows(1);
    let title = |window: WindowId, title: &str| WindowTitleChangedPayload {
        window,
        title: title.to_string(),
    };
    let outcome = handle_window_title_changed(&mut state, title(w(1), "notes"));
    let broadcast = outcome.title_broadcast.unwrap();
    assert_eq!(broadcast.previous_title, "untitled");
    assert_eq!(broadcast.new_title, "notes");
    assert_eq!(outcome.reapply_app_rules, vec![w(1)]);
    assert_eq!(state.windows.window(w(1)).unwrap().info.title, "notes");
    let same = handle_window_title_changed(&mut state, title(w(1), "notes"));
    assert!(unremarkable(&same, OutcomeChange::Nothing));
    let unknown = handle_window_title_changed(&mut state, title(w(9), "x"));
    assert!(unremarkable(&unknown, OutcomeChange::Nothing));
}

#[test]
fn focus_follows_to_other_windows_only() {
    let mut apps = AppManager::new();
    apps.apps.insert(ProcessId { raw: 1 }, AppState { handle: AppHandle { id: 77 } });
    let payload = MouseMovedPayload {
        window: Some(w(1)),
        should_sync: true,
        is_main: false,
        needs_layout_sync: false,
        active_space: Some(space(2)),
    };
    let outcome = handle_mouse_moved_over_window(&apps, payload);
    let request = outcome.raise_request.unwrap();
    assert_eq!(request.raise_windows, vec![vec![w(1)]]);
    assert_eq!(request.focus_window, Some((w(1), None)));
    assert_eq!(request.focus_quiet, Quiet::Yes);
    assert_eq!(request.app_handles.get(ProcessId { raw: 1 }), Some(&AppHandle { id: 77 }));
    assert!(matches!(
        outcome.layout_events[..],
        [LayoutEvent::WindowFocused(at, id)] if at == space(2) && id == w(1)
    ));

    let stranger = MouseMovedPayload { window: Some(WindowId::new(2, 1)), ..payload };
    let outcome = handle_mouse_moved_over_window(&apps, stranger);
    assert!(outcome.raise_request.unwrap().app_handles.is_empty());

    let main = MouseMovedPayload { is_main: true, needs_layout_sync: true, ..payload };
    let outcome = handle_mouse_moved_over_window(&apps, main);
    assert!(outcome.raise_request.is_none());
    assert_eq!(outcome.layout_events.len(), 1);

    for ignored in [
        MouseMovedPayload { window: None, ..payload },
        MouseMovedPayload { should_sync: false, ..payload },
        MouseMovedPayload { is_main: true, ..payload },
    ] {
        let outcome = handle_mouse_moved_over_window(&apps, ignored);
        assert!(unremarkable(&outcome, OutcomeChange::Unconcerned));
    }
}

#[test]
fn scenes_hold_the_other_known_windows_in_order() {
    let (state, _) = with_windows(3);
    let mut layout = LayoutSnapshot::new();
    layout.note_drop_action(space(1), WindowDropAction::Swap);
    layout.note_drop_scene(space(1), w(2), vec![w(3), w(2), w(9), w(1)]);
    let scene = build_drag_scene(&state, &layout, w(2), space(1));
    assert_eq!(scene.action_override, Some(WindowDropAction::Swap));
    let windows: Vec<WindowId> = scene.targets.iter().map(|target| target.window).collect();
    assert_eq!(windows, vec![w(3), w(1)]);
    assert_eq!(scene.targets[0].frame, rect());
    assert_eq!(scene.targets[0].space, space(1));
    let elsewhere = build_drag_scene(&state, &layout, w(2), space(2));
    assert_eq!(elsewhere.action_override, None);
    assert!(elsewhere.targets.is_empty());
}

#[test]
fn cancelling_puts_the_window_back() {
    let moved = frame(5.0, 0.0, 200.0, 100.0);
    let mut floating = dragging(MouseAction::Move, false, moved);
    let outcome = handle_cancel(&mut floating);
    let write = outcome.frame_write.unwrap();
    assert_eq!((write.window, write.frame, write.restores), (w(1), rect(), true));
    assert_eq!(outcome.change, OutcomeChange::Nothing);
    assert!(!floating.actor.is_active());
    assert_eq!(floating.externally_controlled_window, None);
    assert!(unremarkable(&handle_cancel(&mut floating), OutcomeChange::Nothing));

    let mut still = dragging(MouseAction::Resize, false, rect());
    assert!(unremarkable(&handle_cancel(&mut still), OutcomeChange::Nothing));
    let mut tiled = dragging(MouseAction::Move, true, moved);
    assert!(unremarkable(
        &handle_cancel(&mut tiled),
        OutcomeChange::Layout { resize: false }
    ));
    let mut native = manager();
    native.actor.begin_native(source(1, true, moved), DragScene::empty(), start(), true);
    assert!(unremarkable(&handle_cancel(&mut native), OutcomeChange::Nothing));
}

fn release(state: &RiftState, drag: &mut DragManager, final_space: Option<SpaceId>) -> PendingMouseUp {
    let payload = MouseUpPayload { button: MouseButton::Left, final_space, screens: vec![] };
    match handle_mouse_up(state, drag, payload) {
        MouseUpStep::Committed(pending) => pending,
        MouseUpStep::NoDrag(_) => panic!("no drag"),
    }
}

#[test]
fn release_drops_on_a_known_window_of_the_space() {
    let (mut state, _) = with_windows(2);
    let mut layout = LayoutSnapshot::new();
    layout.note_drop_scene(space(1), w(1), vec![w(2)]);
    let mut drag = manager();
    let scene = build_drag_scene(&state, &layout, w(1), space(1));
    drag.actor.begin_native(source(1, true, rect()), scene, start(), true);

    let other = MouseUpPayload {
        button: MouseButton::Right,
        final_space: Some(space(1)),
        screens: vec![],
    };
    match handle_mouse_up(&state, &mut drag, other) {
        MouseUpStep::NoDrag(outcome) => {
            assert!(unremarkable(&outcome, OutcomeChange::Layout { resize: false }));
        }
        MouseUpStep::Committed(_) => panic!("another button committed"),
    }
    assert!(drag.actor.is_active());

    // Without a validated target nothing is dropped.
    let pending = release(&state, &mut drag, Some(space(1)));
    assert!(pending.drop.is_none());
    assert!(!drag.actor.is_active());
    let settled = join_final_space(&mut state, &layout, pending, true);
    assert!(settled.assign.is_none());
    let outcome = keep_floating_position(&layout, settled);
    assert_eq!(outcome.arrange_passes, Some(1));
    assert!(outcome.layout_commands.is_empty());
}

#[test]
fn release_asks_for_the_validated_drop() {
    use_validated_drop(true);
    use_validated_drop(false);
}

fn use_validated_drop(known: bool) {
    let (mut state, mut transactions) = with_windows(2);
    let mut drag = manager();
    let mut scene = DragScene::empty();
    scene.targets = vec![DragSceneTarget {
        window: w(2),
        space: space(1),
        frame: rect(),
    }];
    drag.actor.begin_native(source(1, true, rect()), scene, start(), true);
    let intent = DropIntent {
        window: w(2),
        space: space(1),
        frame: rect(),
        zone: DropZone::Center,
        action: WindowDropAction::Swap,
    };
    validate(&mut drag, intent);
    assert!(drag.preview.is_some());
    if !known {
        let mut unrelated = manager();
        handle_window_destroyed(
            &mut state,
            &mut transactions,
            &mut unrelated,
            WindowDestroyedPayload { window: w(2) },
        );
    }
    let pending = release(&state, &mut drag, Some(space(1)));
    assert!(drag.preview.is_none());
    let request = WindowDropRequest {
        source: w(1),
        target: w(2),
        space: space(1),
        action: WindowDropAction::Swap,
    };
    assert_eq!(pending.drop, if known { Some(request) } else { None });
}

fn validate(drag: &mut DragManager, intent: DropIntent) {
    let edges = Edges { min_x: s(0.0), max_x: s(200.0), min_y: s(0.0), max_y: s(100.0) };
    let half = Ratios { left: s(0.5), right: s(0.5), top: s(0.5), bottom: s(0.5) };
    let seen = FrameMeasure { edges, ratios: half };
    let measure = || SceneMeasure {
        source: seen,
        targets: vec![TargetMeasure {
            frame: seen,
            clamped: half,
            zones: ZoneEdges {
                center: edges,
                west: edges,
                east: edges,
                north: edges,
                south: edges,
            },
            distance: s(0.0),
            overlap: s(1.0),
        }],
    };
    let axis = AxisMeasure {
        low_extent: s(1.0),
        high_extent: s(1.0),
        low_side: s(0.0),
        low_limit: s(0.0),
    };
    let motion = MotionMeasure {
        moved: point(0.0, 0.0),
        resize: ResizeMeasure { center: point(100.0, 50.0), x: axis, y: axis },
        scene: measure(),
    };
    assert!(drag.actor.motion(DragMotion { point: point(100.0, 50.0) }, &motion));
    assert!(!drag.actor.set_preview(intent, Some(rect()), &measure()));
    drag.sync_preview();
}

#[test]
fn release_in_another_space_moves_the_window() {
    let (mut state, _) = with_windows(1);
    let moved = frame(5.0, 0.0, 200.0, 100.0);
    let mut drag = dragging(MouseAction::Move, false, moved);
    let mut layout = LayoutSnapshot::new();
    layout.note_active_workspace(space(2), workspace(20));
    layout.note_floating(w(1));
    let pending = release(&state, &mut drag, Some(space(2)));
    let settled = join_final_space(&mut state, &layout, pending, false);
    assert_eq!(
        settled.assign,
        Some(LayoutCommand::AssignWindow {
            space: space(2),
            window: w(1),
            workspace: workspace(20)
        })
    );
    let outcome = keep_floating_position(&layout, settled);
    assert!(matches!(
        outcome.layout_events[..],
        [LayoutEvent::WindowRemoved(a), LayoutEvent::WindowAdded(at, b)]
            if a == w(1) && b == w(1) && at == space(2)
    ));
    assert_eq!(
        outcome.layout_commands,
        vec![
            LayoutCommand::RemoveFloatingPosition { window: w(1) },
            LayoutCommand::StoreFloatingPosition {
                space: space(2),
                workspace: workspace(20),
                window: w(1),
                frame: moved,
            },
        ]
    );
    assert_eq!(outcome.arrange_passes, Some(1));

    // A window that takes no part in layouts leaves and joins nothing.
    let (mut state, _) = with_windows(1);
    state.windows.set_admission(w(1), rejected());
    let mut drag = dragging(MouseAction::Move, false, moved);
    let pending = release(&state, &mut drag, Some(space(2)));
    let settled = join_final_space(&mut state, &layout, pending, false);
    assert!(settled.assign.is_none());
    assert!(matches!(settled.outcome.layout_events[..], [LayoutEvent::WindowRemoved(_)]));
}

#[test]
fn release_of_a_floating_window_in_place_needs_no_layout() {
    let (mut state, _) = with_windows(1);
    let mut drag = dragging(MouseAction::Move, false, rect());
    let mut layout = LayoutSnapshot::new();
    layout.note_active_workspace(space(1), workspace(10));
    layout.note_workspace(space(1), w(1), workspace(11));
    layout.note_floating(w(1));
    let pending = release(&state, &mut drag, Some(space(1)));
    let settled = join_final_space(&mut state, &layout, pending, true);
    let outcome = keep_floating_position(&layout, settled);
    assert_eq!(outcome.arrange_passes, Some(0));
    assert_eq!(
        outcome.layout_commands,
        vec![LayoutCommand::StoreFloatingPosition {
            space: space(1),
            workspace: workspace(11),
            window: w(1),
            frame: rect(),
        }]
    );
}

#[test]
fn release_of_a_tiled_resize_tells_the_layout() {
    let (state, _) = with_windows(1);
    let wider = frame(0.0, 0.0, 250.0, 100.0);
    let mut drag = dragging(MouseAction::Resize, true, wider);
    let pending = release(&state, &mut drag, Some(space(1)));
    assert!(matches!(
        pending.outcome.layout_events[..],
        [LayoutEvent::WindowResized { wid, old_frame, new_frame, .. }]
            if wid == w(1) && old_frame == rect() && new_frame == wider
    ));
}

#[test]
fn reports_are_told_apart() {
    let (mut state, mut transactions) = with_windows(1);
    let mut drag = manager();
    let moved = frame(5.0, 0.0, 200.0, 100.0);
    let sent = TransactionId { raw: 3 };
    transactions.store_txid(server(1), sent, moved);

    // Stale: seen before the newest write.
    let mut mouse = None;
    let stale = classify_window_frame_change(
        &mut state, &mut transactions, &mut drag, w(1), moved, Some(TransactionId { raw: 2 }),
        false, &mut mouse, false, Some(MouseState::Up), true,
    );
    assert_eq!(stale, FrameChangeDisposition::Handled);
    assert_eq!(mouse, None);
    assert_eq!(state.windows.window(w(1)).unwrap().frame_monotonic, rect());

    // Acknowledged, first on the way and then at the target.
    for (at_target, left) in [(false, Some(moved)), (true, None)] {
        let acknowledged = classify_window_frame_change(
            &mut state, &mut transactions, &mut drag, w(1), moved, Some(sent), false, &mut mouse,
            false, Some(MouseState::Up), at_target,
        );
        assert_eq!(acknowledged, FrameChangeDisposition::Handled);
        assert_eq!(mouse, Some(MouseState::Up));
        assert_eq!(state.windows.window(w(1)).unwrap().frame_monotonic, moved);
        assert_eq!(transactions.get_target_frame(server(1)), left);
    }
    assert_eq!(transactions.get_last_sent_txid(server(1)), sent);

    // Grabbed: the write is given up and the report looked at.
    transactions.store_txid(server(1), sent, moved);
    let mut mouse = Some(MouseState::Down);
    let grabbed = classify_window_frame_change(
        &mut state, &mut transactions, &mut drag, w(1), rect(), Some(sent), false, &mut mouse,
        false, None, false,
    );
    assert_eq!(grabbed, FrameChangeDisposition::NeedsGeometryAnalysis);
    assert_eq!(transactions.get_target_frame(server(1)), None);
    assert_eq!(state.windows.window(w(1)).unwrap().frame_monotonic, moved);

    // Requested.
    transactions.store_txid(server(1), sent, moved);
    let mut mouse = None;
    let requested = classify_window_frame_change(
        &mut state, &mut transactions, &mut drag, w(1), rect(), None, true, &mut mouse, false,
        Some(MouseState::Down), false,
    );
    assert_eq!(requested, FrameChangeDisposition::Handled);
    assert_eq!(mouse, None);
    assert_eq!(state.windows.window(w(1)).unwrap().frame_monotonic, rect());
    assert_eq!(transactions.get_target_frame(server(1)), None);

    // Somebody else's.
    let foreign = classify_window_frame_change(
        &mut state, &mut transactions, &mut drag, w(1), moved, None, false, &mut mouse, false,
        Some(MouseState::Down), false,
    );
    assert_eq!(foreign, FrameChangeDisposition::NeedsGeometryAnalysis);
    assert_eq!(mouse, Some(MouseState::Down));

    // Unknown, with a drag in progress.
    drag.actor.await_native(w(1));
    let mut mouse = None;
    let unknown = classify_window_frame_change(
        &mut state, &mut transactions, &mut drag, w(9), moved, None, false, &mut mouse, false,
        Some(MouseState::Up), false,
    );
    assert_eq!(unknown, FrameChangeDisposition::Handled);
    assert_eq!(mouse, Some(MouseState::Up));

    // All windows shown at once.
    let shown = classify_window_frame_change(
        &mut state, &mut transactions, &mut drag, w(1), moved, None, false, &mut mouse, true,
        None, false,
    );
    assert_eq!(shown, FrameChangeDisposition::Handled);
    assert!(!drag.actor.is_active());
}

#[test]
fn frames_of_no_concern_change_nothing() {
    let (mut state, _) = with_windows(1);
    let mut drag = manager();
    let layout = LayoutSnapshot::new();
    let moved = frame(5.0, 0.0, 200.0, 100.0);
    let inactive = WindowFrameChangedPayload {
        old_space_active: false,
        new_space_active: false,
        ..moved_to(moved)
    };
    let unknown = WindowFrameChangedPayload { window: w(9), ..moved_to(moved) };
    let unchanged = FrameComparison { unchanged: true, ..seen(true) };
    for (payload, comparison) in
        [(inactive, seen(true)), (unknown, seen(true)), (moved_to(moved), unchanged)]
    {
        let outcome =
            handle_window_frame_changed(&mut state, &layout, &mut drag, payload, comparison);
        assert!(unremarkable(&outcome, OutcomeChange::Unconcerned));
    }
    assert_eq!(state.windows.window(w(1)).unwrap().frame_monotonic, rect());
    assert!(!drag.actor.is_active());
}

#[test]
fn native_drag_begins_with_a_held_button() {
    let (mut state, _) = with_windows(2);
    let mut drag = manager();
    let mut layout = LayoutSnapshot::new();
    layout.note_drop_scene(space(1), w(1), vec![w(1), w(2)]);
    let moved = frame(5.0, 0.0, 200.0, 100.0);
    let payload =
        WindowFrameChangedPayload { mouse_state: Some(MouseState::Down), ..moved_to(moved) };
    let outcome = handle_window_frame_changed(&mut state, &layout, &mut drag, payload, seen(true));
    assert!(unremarkable(&outcome, OutcomeChange::Layout { resize: false }));
    assert_eq!(drag.actor.kind(), Some(DragKind::NativeMove));
    assert_eq!(drag.actor.source().unwrap().origin_frame, rect());
    assert_eq!(drag.actor.session().unwrap().scene.targets.len(), 1);
    assert_eq!(drag.externally_controlled_window, Some(w(1)));

    // The button is up though the drag goes on, and the size has changed.
    let wider = frame(5.0, 0.0, 220.0, 100.0);
    let payload =
        WindowFrameChangedPayload { mouse_state: Some(MouseState::Up), ..moved_to(wider) };
    let outcome =
        handle_window_frame_changed(&mut state, &layout, &mut drag, payload, seen(false));
    assert!(outcome.dispatch_mouse_up);
    assert!(matches!(
        outcome.layout_events[..],
        [LayoutEvent::WindowResized { old_frame, new_frame, .. }]
            if old_frame == moved && new_frame == wider
    ));
    assert_eq!(drag.actor.kind(), Some(DragKind::NativeResize));
    assert!(handle_mouse_up_if_needed(&mut drag, false, Some(MouseState::Up)));
    assert!(!handle_mouse_up_if_needed(&mut drag, false, Some(MouseState::Down)));
    assert!(!handle_mouse_up_if_needed(&mut drag, true, Some(MouseState::Up)));
    assert!(!drag.actor.is_active());
}

#[test]
fn own_writes_start_no_native_drag() {
    let (mut state, _) = with_windows(1);
    let mut drag = dragging(MouseAction::Move, true, rect());
    let layout = LayoutSnapshot::new();
    let moved = frame(5.0, 0.0, 200.0, 100.0);
    let payload =
        WindowFrameChangedPayload { mouse_state: Some(MouseState::Down), ..moved_to(moved) };
    let outcome = handle_window_frame_changed(&mut state, &layout, &mut drag, payload, seen(true));
    assert!(unremarkable(&outcome, OutcomeChange::Nothing));
    assert_eq!(drag.actor.kind(), Some(DragKind::ModifierMove));
    assert_eq!(state.windows.window(w(1)).unwrap().frame_monotonic, moved);
}

#[test]
fn floating_layouts_keep_foreign_moves() {
    let (mut state, _) = with_windows(1);
    let mut drag = manager();
    let mut layout = LayoutSnapshot::new();
    layout.note_workspace(space(1), w(1), workspace(10));
    let moved = frame(5.0, 0.0, 200.0, 100.0);
    let outcome =
        handle_window_frame_changed(&mut state, &layout, &mut drag, moved_to(moved), seen(true));
    assert!(outcome.layout_commands.is_empty());
    layout.note_layout_mode(workspace(10), LayoutMode::Floating);
    let outcome =
        handle_window_frame_changed(&mut state, &layout, &mut drag, moved_to(rect()), seen(true));
    assert_eq!(
        outcome.layout_commands,
        vec![LayoutCommand::StoreFloatingPosition {
            space: space(1),
            workspace: workspace(10),
            window: w(1),
            frame: rect(),
        }]
    );
}

#[test]
fn windows_change_space_unless_they_keep_their_place() {
    let moved = frame(5.0, 0.0, 200.0, 100.0);
    let elsewhere = || WindowFrameChangedPayload { new_space: Some(space(2)), ..moved_to(moved) };
    let mut layout = LayoutSnapshot::new();
    layout.note_active_workspace(space(2), workspace(20));
    let run = |payload: WindowFrameChangedPayload| {
        let (mut state, _) = with_windows(1);
        handle_window_frame_changed(&mut state, &layout, &mut manager(), payload, seen(true))
    };
    let outcome = run(elsewhere());
    assert!(matches!(
        outcome.layout_events[..],
        [LayoutEvent::WindowRemovedPreserveFloating(a), LayoutEvent::WindowAdded(at, b)]
            if a == w(1) && b == w(1) && at == space(2)
    ));
    assert_eq!(outcome.layout_commands.len(), 1);

    let outcome = run(WindowFrameChangedPayload { new_space_active: false, ..elsewhere() });
    assert_eq!(outcome.layout_events.len(), 1);
    let outcome = run(WindowFrameChangedPayload { new_space: None, ..elsewhere() });
    assert_eq!(outcome.layout_events.len(), 1);

    for kept in [
        WindowFrameChangedPayload { keep_assigned_for_scrolling: true, ..elsewhere() },
        WindowFrameChangedPayload {
            pending_target_space: Some(space(3)),
            assigned_space: Some(space(3)),
            ..elsewhere()
        },
    ] {
        assert!(unremarkable(&run(kept), OutcomeChange::Layout { resize: false }));
    }
    // The window has reached the space that it was sent to.
    let arrived = WindowFrameChangedPayload {
        pending_target_space: Some(space(2)),
        assigned_space: Some(space(2)),
        ..elsewhere()
    };
    assert_eq!(run(arrived).layout_events.len(), 2);
}

#[test]
fn foreign_resizes_are_told_to_the_layout() {
    let (mut state, _) = with_windows(1);
    let layout = LayoutSnapshot::new();
    let wider = frame(0.0, 0.0, 220.0, 100.0);
    let outcome = handle_window_frame_changed(
        &mut state,
        &layout,
        &mut manager(),
        moved_to(wider),
        seen(false),
    );
    assert!(outcome.is_resize);
    assert!(matches!(
        &outcome.layout_events[..],
        [LayoutEvent::WindowResized { wid, screens, .. }]
            if *wid == w(1) && screens.len() == 1
    ));
}
