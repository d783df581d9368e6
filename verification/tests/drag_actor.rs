use rift_drag::drag::{DragActor, MotionMeasure, NativeStart, State};
use rift_drag::geometry::{AxisMeasure, Edges, Point, Rect, ResizeMeasure, Size};
use rift_drag::hit_test::{
    classify_zone, hit_test, preview_frame, resolve_action, zone_frame, AxisSpans, FrameMeasure,
    Ratios, SceneMeasure, Span, TargetMeasure, ZoneEdges, HYSTERESIS_POINTS, PREVIEW_INSET_POINTS,
};
use rift_drag::ids::{SpaceId, WindowId};
use rift_drag::model::{
    Direction, DragDropSettings, DragKind, DragScene, DragSceneTarget, DragSource, DropIntent,
    DropTarget, DropZone, MouseAction, MouseButton, MouseDropAction, WindowDropAction,
};
use rift_drag::publisher::{DragMotion, DragMotionPublisher};
use rift_drag::scalar::Scalar;

fn s(value: f64) -> Scalar {
    Scalar::from_bits(value.to_bits())
}

fn f(value: Scalar) -> f64 {
    f64::from_bits(value.bits)
}

fn frame(x: f64, y: f64, width: f64, height: f64) -> Rect {
    Rect {
        origin: Point { x: s(x), y: s(y) },
        size: Size { width: s(width), height: s(height) },
    }
}

fn point(x: f64, y: f64) -> Point {
    Point { x: s(x), y: s(y) }
}

fn numbers(rect: Rect) -> (f64, f64, f64, f64) {
    (f(rect.origin.x), f(rect.origin.y), f(rect.size.width), f(rect.size.height))
}

fn edges(rect: Rect, margin: f64) -> Edges {
    let (x, y, width, height) = numbers(rect);
    Edges {
        min_x: s(x - margin),
        max_x: s(x + width + margin),
        min_y: s(y - margin),
        max_y: s(y + height + margin),
    }
}

fn ratios(rect: Rect, at: Point) -> Ratios {
    let (x, y, width, height) = numbers(rect);
    let left = (f(at.x) - x) / width;
    let top = (f(at.y) - y) / height;
    Ratios { left: s(left), right: s(1.0 - left), top: s(top), bottom: s(1.0 - top) }
}

fn seen(rect: Rect, at: Point) -> FrameMeasure {
    FrameMeasure { edges: edges(rect, 0.0), ratios: ratios(rect, at) }
}

fn spans(begin: f64, extent: f64, fraction: f64) -> AxisSpans {
    let span = |at: f64, part: f64| Span { begin: s(begin + extent * at), extent: s(extent * part) };
    AxisSpans {
        low: span(0.0, fraction),
        middle: span(fraction, 1.0 - 2.0 * fraction),
        high: span(1.0 - fraction, fraction),
        full: span(0.0, 1.0),
    }
}

fn zone_of(rect: Rect, zone: DropZone, fraction: f64) -> Rect {
    let (x, y, width, height) = numbers(rect);
    zone_frame(spans(x, width, fraction), spans(y, height, fraction), zone)
}

fn zone_edges(rect: Rect, fraction: f64) -> ZoneEdges {
    let of = |zone| edges(zone_of(rect, zone, fraction), f64::from(HYSTERESIS_POINTS));
    ZoneEdges {
        center: of(DropZone::Center),
        west: of(DropZone::West),
        east: of(DropZone::East),
        north: of(DropZone::North),
        south: of(DropZone::South),
    }
}

fn distance(rect: Rect, at: Point) -> f64 {
    let (x, y, width, height) = numbers(rect);
    let dx = (x - f(at.x)).max(0.0).max(f(at.x) - (x + width));
    let dy = (y - f(at.y)).max(0.0).max(f(at.y) - (y + height));
    dx * dx + dy * dy
}

fn overlap(a: Rect, b: Rect) -> f64 {
    let (ax, ay, aw, ah) = numbers(a);
    let (bx, by, bw, bh) = numbers(b);
    let width = (ax + aw).min(bx + bw) - ax.max(bx);
    let height = (ay + ah).min(by + bh) - ay.max(by);
    width.max(0.0) * height.max(0.0)
}

fn scene_measure(scene: &DragScene, origin: Rect, at: Point, fraction: f64) -> SceneMeasure {
    let targets = scene
        .targets
        .iter()
        .map(|target| TargetMeasure {
            frame: seen(target.frame, at),
            clamped: ratios(target.frame, edges(target.frame, 0.0).clamp_point(at)),
            zones: zone_edges(target.frame, fraction),
            distance: s(distance(target.frame, at)),
            overlap: s(overlap(origin, target.frame)),
        })
        .collect();
    SceneMeasure { source: seen(origin, at), targets }
}

fn axis(begin: f64, extent: f64, motion: f64) -> AxisMeasure {
    AxisMeasure {
        low_extent: s(extent - motion),
        high_extent: s(extent + motion),
        low_side: s(begin + extent - (extent - motion)),
        low_limit: s(begin + extent - 1.0),
    }
}

fn settings() -> DragDropSettings {
    DragDropSettings {
        enabled: true,
        drop_zone_fraction: s(0.25),
        drop_action: MouseDropAction::Swap,
    }
}

fn rect() -> Rect {
    frame(0.0, 0.0, 200.0, 100.0)
}

fn w(idx: u32) -> WindowId {
    WindowId::new(1, idx)
}

fn space() -> SpaceId {
    SpaceId::new(1)
}

fn target(idx: u32, frame: Rect) -> DragSceneTarget {
    DragSceneTarget { window: w(idx), space: space(), frame }
}

fn source(tiled: bool) -> DragSource {
    DragSource {
        window: w(1),
        origin_frame: rect(),
        last_frame: rect(),
        origin_space: Some(space()),
        current_space: Some(space()),
        tiled,
    }
}

fn scene(frame: Rect) -> DragScene {
    scene_with(vec![target(2, frame)])
}

fn scene_with(targets: Vec<DragSceneTarget>) -> DragScene {
    DragScene { action_override: None, targets }
}

fn native_start(source: DragSource) -> NativeStart {
    let (x, y, width, height) = numbers(source.last_frame);
    NativeStart {
        size_kept: source.origin_frame.size == source.last_frame.size,
        center: point(x + width / 2.0, y + height / 2.0),
    }
}

fn begin_native(actor: &mut DragActor, source: DragSource, scene: DragScene) {
    let start = native_start(source);
    actor.begin_native(source, scene, start, start.size_kept);
}

fn begin_modifier(
    actor: &mut DragActor,
    source: DragSource,
    at: Point,
    action: MouseAction,
    scene: DragScene,
) {
    actor.begin_modifier(source, at, action, scene);
}

fn motion(actor: &mut DragActor, x: f64, y: f64) -> bool {
    let at = point(x, y);
    let measure = match actor.session() {
        None => panic!("no drag"),
        Some(session) => {
            let (fx, fy, width, height) = numbers(session.source.origin_frame);
            let dx = x - f(session.anchor_point.x);
            let dy = y - f(session.anchor_point.y);
            MotionMeasure {
                moved: point(fx + dx, fy + dy),
                resize: ResizeMeasure {
                    center: point(fx + width / 2.0, fy + height / 2.0),
                    x: axis(fx, width, dx),
                    y: axis(fy, height, dy),
                },
                scene: scene_measure(
                    &session.scene,
                    session.source.origin_frame,
                    at,
                    f(actor.settings().drop_zone_fraction),
                ),
            }
        }
    };
    actor.motion(DragMotion { point: at }, &measure)
}

fn session_measure(actor: &DragActor) -> SceneMeasure {
    match actor.session() {
        None => panic!("no drag"),
        Some(session) => scene_measure(
            &session.scene,
            session.source.origin_frame,
            session.pointer,
            f(actor.settings().drop_zone_fraction),
        ),
    }
}

fn set_preview(actor: &mut DragActor, intent: DropIntent, area: Option<Rect>) -> bool {
    let measure = session_measure(actor);
    actor.set_preview(intent, area, &measure)
}

fn replace_scene(actor: &mut DragActor, scene: DragScene) {
    let measure = match actor.session() {
        None => panic!("no drag"),
        Some(session) => scene_measure(
            &scene,
            session.source.origin_frame,
            session.pointer,
            f(actor.settings().drop_zone_fraction),
        ),
    };
    actor.replace_scene(scene, &measure);
}

fn hit(
    scene: &DragScene,
    at: Point,
    center: MouseDropAction,
    previous: Option<DropIntent>,
) -> Option<DropIntent> {
    let measure = scene_measure(scene, rect(), at, 0.25);
    hit_test(scene, at, s(0.25), center, previous, &measure)
}

fn inset(area: Rect) -> Rect {
    let (x, y, width, height) = numbers(area);
    let by = f64::from(PREVIEW_INSET_POINTS);
    frame(x + by, y + by, width - 2.0 * by, height - 2.0 * by)
}

fn native(tiled: bool, last_frame: Rect, scene: DragScene) -> DragActor {
    let mut source = source(tiled);
    source.last_frame = last_frame;
    let mut actor = DragActor::new(settings());
    begin_native(&mut actor, source, scene);
    actor
}

fn modifier(action: MouseAction, tiled: bool) -> DragActor {
    let mut actor = DragActor::new(settings());
    begin_modifier(&mut actor, source(tiled), point(100.0, 50.0), action, scene(rect()));
    actor
}

#[test]
fn classifies_target_local_center_and_edges() {
    let classify =
        |at: Point| classify_zone(rect(), at, s(0.25), seen(rect(), at));
    for (coords, zone) in [
        ((100., 50.), DropZone::Center),
        ((1., 50.), DropZone::West),
        ((199., 50.), DropZone::East),
        ((100., 1.), DropZone::North),
        ((100., 99.), DropZone::South),
        ((0., 0.), DropZone::West),
        ((200., 0.), DropZone::East),
        ((0., 100.), DropZone::West),
        ((200., 100.), DropZone::East),
    ] {
        assert_eq!(classify(point(coords.0, coords.1)), Some(zone));
    }
    assert_eq!(
        resolve_action(DropZone::South, MouseDropAction::Swap),
        WindowDropAction::Insert(Direction::Down),
    );
    assert_eq!(classify(point(-1.0, 50.0)), None);
}

#[test]
fn target_zones_keep_their_local_frames() {
    let target = frame(10.0, 20.0, 200.0, 100.0);
    for (zone, expected) in [
        (DropZone::Center, frame(60.0, 45.0, 100.0, 50.0)),
        (DropZone::West, frame(10.0, 20.0, 50.0, 100.0)),
        (DropZone::East, frame(160.0, 20.0, 50.0, 100.0)),
        (DropZone::North, frame(10.0, 20.0, 200.0, 25.0)),
        (DropZone::South, frame(10.0, 95.0, 200.0, 25.0)),
    ] {
        assert_eq!(zone_of(target, zone, 0.25), expected);
    }
}

#[test]
fn preview_inset_clamps_small_tiles() {
    let intent =
        hit(&scene(rect()), point(100.0, 50.0), MouseDropAction::Swap, None).unwrap();
    for (area, expected) in [
        (rect(), frame(4.0, 4.0, 192.0, 92.0)),
        (frame(10.0, 20.0, 6.0, 6.0), frame(14.0, 24.0, 0.0, 0.0)),
    ] {
        let target = DropTarget { intent, preview_area: area };
        assert_eq!(preview_frame(inset(target.preview_area)), expected);
    }
}

#[test]
fn publisher_coalesces_to_newest_motion() {
    let mut publisher = DragMotionPublisher::default();
    for x in 0..1_000 {
        assert_eq!(publisher.publish(DragMotion { point: point(x as f64, 0.0) }), x == 0);
    }
    assert!(publisher.wake_queued());
    assert_eq!(f(publisher.take_latest().unwrap().point.x), 999.0);
    assert!(!publisher.wake_queued());
    assert!(publisher.publish(DragMotion { point: point(1_000.0, 0.0) }));
}

#[test]
fn native_tiled_move_targets_pointer_zone_and_commits_once() {
    let target_frame = frame(100.0, 0.0, 100.0, 100.0);
    let moved = frame(10.0, 0.0, 200.0, 100.0);
    let mut actor = native(true, moved, scene(target_frame));
    assert!(motion(&mut actor, 1.0, 50.0));
    let intent = actor.intent().unwrap();
    assert_eq!(intent.action, WindowDropAction::Insert(Direction::Left));
    set_preview(&mut actor, intent, Some(target_frame));
    let preview = preview_frame(inset(actor.target().unwrap().preview_area));
    assert_eq!(preview.origin, point(104.0, 4.0));
    assert_eq!(preview.size, Size { width: s(92.0), height: s(92.0) });
    let commit = actor.finish(MouseButton::Left).unwrap();
    assert_eq!(commit.source.window, w(1));
    assert_eq!(commit.target.unwrap().intent.window, w(2));
    assert!(actor.finish(MouseButton::Left).is_none());
}

#[test]
fn original_tile_edges_offer_keyboard_equivalent_moves() {
    let scene = scene(frame(220.0, 0.0, 200.0, 100.0));
    for ((x, y), direction) in [
        ((1.0, 50.0), Direction::Left),
        ((199.0, 50.0), Direction::Right),
        ((100.0, 1.0), Direction::Up),
        ((100.0, 99.0), Direction::Down),
    ] {
        let mut actor = native(true, rect(), scene.clone());
        motion(&mut actor, x, y);
        let intent = actor.intent().unwrap();
        assert_eq!(intent.window, w(1));
        assert_eq!(intent.action, WindowDropAction::Move(direction));
        set_preview(&mut actor, intent, Some(rect()));
        assert_eq!(
            actor.finish(MouseButton::Left).unwrap().target.unwrap().intent.action,
            WindowDropAction::Move(direction)
        );
    }
}

#[test]
fn unavailable_preview_does_not_expose_a_target() {
    let mut actor = native(true, rect(), scene(rect()));
    motion(&mut actor, 1.0, 50.0);
    let intent = actor.intent().unwrap();
    set_preview(&mut actor, intent, None);
    assert!(actor.target().is_none());
    assert!(actor.finish(MouseButton::Left).unwrap().target.is_none());
}

#[test]
fn unavailable_nearest_target_falls_back_to_the_next_target() {
    let nearest = w(2);
    let fallback = w(3);
    let scene =
        scene_with(vec![target(2, rect()), target(3, frame(220.0, 0.0, 200.0, 100.0))]);
    let mut actor = native(true, rect(), scene);
    motion(&mut actor, 100.0, 50.0);
    let intent = actor.intent().unwrap();
    assert_eq!(intent.window, nearest);
    assert!(set_preview(&mut actor, intent, None));
    assert_eq!(actor.intent().unwrap().window, fallback);
}

#[test]
fn equidistant_outside_targets_keep_scene_order() {
    let scene = scene_with(vec![
        target(2, frame(0.0, 0.0, 100.0, 100.0)),
        target(3, frame(200.0, 0.0, 100.0, 100.0)),
    ]);
    let point = point(150.0, 50.0);
    assert_eq!(hit(&scene, point, MouseDropAction::Swap, None).unwrap().window, w(2));
}

#[test]
fn overlapping_targets_prefer_scene_order() {
    let visible = w(2);
    let scene = scene_with(vec![target(2, rect()), target(3, rect())]);
    let intent = hit(&scene, point(100.0, 50.0), MouseDropAction::Swap, None).unwrap();
    assert_eq!(intent.window, visible);
}

#[test]
fn replacing_scene_invalidates_a_validated_preview() {
    let mut actor = native(true, rect(), scene(rect()));
    motion(&mut actor, 100.0, 50.0);
    let intent = actor.intent().unwrap();
    set_preview(&mut actor, intent, Some(rect()));
    assert!(actor.target().is_some());

    let moved = frame(300.0, 0.0, 200.0, 100.0);
    replace_scene(&mut actor, scene(moved));
    assert!(actor.target().is_none());
    let moved_intent = actor.intent().unwrap();
    assert_eq!(moved_intent.frame, moved);
    set_preview(&mut actor, moved_intent, Some(moved));
    let mut settings = settings();
    settings.drop_action = MouseDropAction::Stack;
    actor.update_config(settings);
    assert!(actor.intent().is_none());
    assert!(actor.target().is_none());
}

#[test]
fn floating_move_never_builds_a_drop_target() {
    let moved = frame(10.0, 0.0, 200.0, 100.0);
    let mut actor = native(false, moved, scene(rect()));
    motion(&mut actor, 100.0, 50.0);
    assert!(actor.target().is_none());
}

#[test]
fn modifier_space_change_invalidates_origin_drop_state() {
    let destination = SpaceId::new(2);
    let mut actor = modifier(MouseAction::Move, true);
    motion(&mut actor, 100.0, 50.0);
    let intent = actor.intent().unwrap();
    set_preview(&mut actor, intent, Some(rect()));
    assert!(actor.target().is_some());

    assert!(actor.update_current_space(Some(destination)));
    assert_eq!(actor.source().unwrap().current_space, Some(destination));
    assert!(actor.intent().is_none());
    assert!(actor.target().is_none());
    motion(&mut actor, 100.0, 50.0);
    assert!(actor.intent().is_none());
    assert!(actor.finish(MouseButton::Left).unwrap().target.is_none());
}

#[test]
fn stack_scene_resolves_every_zone_to_swap() {
    let mut scene = scene(rect());
    scene.action_override = Some(WindowDropAction::Swap);
    for point in [point(1.0, 50.0), point(100.0, 50.0)] {
        let intent = hit(&scene, point, MouseDropAction::Stack, None).unwrap();
        assert_eq!(intent.action, WindowDropAction::Swap);
    }
}

#[test]
fn cancellation_identifies_native_and_modifier_sessions() {
    let mut moved = source(false);
    moved.last_frame = frame(20.0, 20.0, 200.0, 100.0);
    let mut actor = native(false, moved.last_frame, DragScene::default());
    assert_eq!(actor.cancel().unwrap().kind, DragKind::NativeMove);

    begin_modifier(
        &mut actor,
        moved,
        point(10.0, 10.0),
        MouseAction::Move,
        DragScene::default(),
    );
    assert_eq!(actor.cancel().unwrap().kind, DragKind::ModifierMove);
}

#[test]
fn modifier_resize_moves_the_edges_nearest_the_press() {
    for ((ax, ay), (dx, dy), expected) in [
        ((10.0, 10.0), (-10.0, -20.0), frame(-10.0, -20.0, 210.0, 120.0)),
        ((190.0, 90.0), (10.0, 20.0), frame(0.0, 0.0, 210.0, 120.0)),
        ((10.0, 90.0), (500.0, 0.0), frame(199.0, 0.0, 1.0, 100.0)),
    ] {
        let mut actor = DragActor::new(settings());
        begin_modifier(
            &mut actor,
            source(true),
            point(ax, ay),
            MouseAction::Resize,
            scene(rect()),
        );
        motion(&mut actor, ax + dx, ay + dy);
        assert!(actor.intent().is_none());
        assert_eq!(actor.interactive_update(), Some((w(1), expected)));
        assert_eq!(actor.finish(MouseButton::Left).unwrap().kind, DragKind::ModifierResize);
    }
}

#[test]
fn only_the_owning_button_finishes_a_modifier_drag() {
    let mut actor = DragActor::new(settings());
    let id = actor.await_modifier(MouseButton::Left, point(10.0, 10.0), MouseAction::Move);
    assert!(actor.resolve_start(
        id,
        Some(source(true)),
        DragScene::default(),
        native_start(source(true))
    ));

    assert!(actor.finish(MouseButton::Right).is_none());
    assert!(actor.is_active());
    assert!(actor.finish(MouseButton::Left).is_some());
    assert!(!actor.is_active());
}

#[test]
fn stale_source_resolution_is_ignored() {
    let mut actor = DragActor::new(settings());
    let start = native_start(source(true));
    let stale = actor.await_native(w(1));
    let current = actor.await_native(w(2));
    assert!(!actor.resolve_start(stale, None, DragScene::default(), start));
    assert!(actor.is_active());
    assert!(actor.resolve_start(current, None, DragScene::default(), start));
    assert!(!actor.is_active());
}

#[test]
fn zone_keeps_the_pointer_within_its_margin() {
    let scene = scene(rect());
    let at_edge = hit(&scene, point(49.0, 50.0), MouseDropAction::Swap, None).unwrap();
    assert_eq!(at_edge.zone, DropZone::West);
    // The west zone ends at 50 and keeps the pointer for another 8 points.
    let kept = hit(&scene, point(58.0, 50.0), MouseDropAction::Swap, Some(at_edge)).unwrap();
    assert_eq!(kept.zone, DropZone::West);
    let left = hit(&scene, point(58.5, 50.0), MouseDropAction::Swap, Some(at_edge)).unwrap();
    assert_eq!(left.zone, DropZone::Center);
    let fresh = hit(&scene, point(58.0, 50.0), MouseDropAction::Stack, None).unwrap();
    assert_eq!(fresh.action, WindowDropAction::Stack);
}

#[test]
fn frames_without_extent_have_no_zone() {
    let flat = frame(0.0, 0.0, 0.0, 100.0);
    let at = point(0.0, 50.0);
    assert_eq!(classify_zone(flat, at, s(0.25), seen(flat, at)), None);
    assert!(hit(&scene(flat), at, MouseDropAction::Swap, None).is_none());
}

#[test]
fn outside_pointer_goes_to_the_nearest_target() {
    let scene = scene_with(vec![
        target(2, frame(0.0, 0.0, 100.0, 100.0)),
        target(3, frame(200.0, 0.0, 100.0, 100.0)),
    ]);
    let near = hit(&scene, point(151.0, 50.0), MouseDropAction::Swap, None).unwrap();
    assert_eq!((near.window, near.zone), (w(3), DropZone::West));
    assert!(hit(&DragScene::default(), point(0.0, 0.0), MouseDropAction::Swap, None).is_none());
}

#[test]
fn rejected_drops_run_out() {
    let mut actor = native(true, rect(), scene(rect()));
    motion(&mut actor, 100.0, 50.0);
    let intent = actor.intent().unwrap();
    // The only target is under the pointer: neither it nor the covered tile
    // is left once its center is impossible.
    assert!(!set_preview(&mut actor, intent, None));
    assert!(actor.intent().is_none());
    // An answer to an intent that is not asked for changes nothing.
    assert!(!set_preview(&mut actor, intent, Some(rect())));
    assert!(actor.target().is_none());
    assert!(motion(&mut actor, 1.0, 50.0));
    assert_eq!(actor.intent().unwrap().zone, DropZone::West);
}

#[test]
fn disabling_ends_a_drag_and_equal_settings_keep_its_target() {
    let mut actor = native(true, rect(), scene(rect()));
    motion(&mut actor, 100.0, 50.0);
    let intent = actor.intent().unwrap();
    set_preview(&mut actor, intent, Some(rect()));
    actor.update_config(settings());
    assert!(actor.target().is_some());
    let mut off = settings();
    off.enabled = false;
    actor.update_config(off);
    assert!(!actor.is_active());
}

#[test]
fn removed_windows_leave_the_drag() {
    let mut actor = native(true, rect(), scene_with(vec![target(2, rect()), target(3, rect())]));
    motion(&mut actor, 100.0, 50.0);
    assert_eq!(actor.intent().unwrap().window, w(2));
    assert!(!actor.window_removed(w(2)));
    assert!(actor.intent().is_none());
    assert_eq!(actor.session().unwrap().scene.targets.len(), 1);
    assert!(actor.window_removed(w(1)));
    assert!(!actor.is_active());

    let mut waiting = DragActor::new(settings());
    waiting.await_native(w(5));
    assert!(!waiting.window_removed(w(6)));
    assert!(waiting.is_active());
    assert!(waiting.window_removed(w(5)));
    assert!(!waiting.is_active());
}

#[test]
fn native_drag_follows_its_window() {
    let mut actor = native(true, frame(10.0, 0.0, 200.0, 100.0), scene(rect()));
    assert_eq!(actor.kind(), Some(DragKind::NativeMove));
    assert_eq!(actor.session().unwrap().pointer, point(110.0, 50.0));
    let wider = frame(10.0, 0.0, 210.0, 100.0);
    assert!(actor.update_native(w(1), wider, Some(space()), false));
    assert_eq!(actor.kind(), Some(DragKind::NativeResize));
    assert_eq!(actor.source().unwrap().last_frame, wider);
    assert!(!actor.update_native(w(2), wider, Some(space()), false));
    assert!(actor.interactive_update().is_none());
    assert!(actor.update_native(w(1), rect(), None, true));
    assert_eq!(actor.source().unwrap().current_space, None);
}

#[test]
fn modifier_move_carries_the_window_along() {
    let mut actor = modifier(MouseAction::Move, false);
    assert!(!motion(&mut actor, 130.0, 45.0));
    assert_eq!(
        actor.interactive_update(),
        Some((w(1), frame(30.0, -5.0, 200.0, 100.0)))
    );
    let mut ignored = modifier(MouseAction::Ignore, false);
    assert!(ignored.is_active());
    assert!(ignored.session().is_none());
    assert!(ignored.cancel().is_none());
    assert!(!ignored.is_active());
}

#[test]
fn wrong_window_ends_a_native_start() {
    let mut actor = DragActor::new(settings());
    let id = actor.await_native(w(9));
    assert!(!actor.resolve_start(
        id,
        Some(source(true)),
        DragScene::default(),
        native_start(source(true))
    ));
    assert!(!actor.is_active());
}

#[test]
fn classified_zones_hold_their_points() {
    let target = frame(10.0, 20.0, 200.0, 100.0);
    let whole = edges(target, 0.0);
    for fraction in [0.125, 0.25, 0.5] {
        for x in 0..=16 {
            for y in 0..=16 {
                let at = point(10.0 + 12.5 * x as f64, 20.0 + 6.25 * y as f64);
                let zone = classify_zone(target, at, s(fraction), seen(target, at)).unwrap();
                let sides = edges(zone_of(target, zone, fraction), 0.0);
                assert!(sides.contains(at), "{zone:?} at {at:?}");
                assert!(whole.min_x.at_most(sides.min_x) && sides.max_x.at_most(whole.max_x));
                assert!(whole.min_y.at_most(sides.min_y) && sides.max_y.at_most(whole.max_y));
            }
        }
    }
}

#[test]
fn motions_do_not_drift() {
    let mut wandering = modifier(MouseAction::Move, false);
    let mut direct = wandering.clone();
    for (x, y) in [(130.0, 45.0), (-7.5, 300.0), (120.0, 60.0)] {
        motion(&mut wandering, x, y);
    }
    motion(&mut direct, 120.0, 60.0);
    let expected = Some((w(1), frame(20.0, 10.0, 200.0, 100.0)));
    assert_eq!(wandering.interactive_update(), expected);
    assert_eq!(direct.interactive_update(), expected);
    let mut unchanged = wandering.source().unwrap();
    unchanged.last_frame = rect();
    assert_eq!(unchanged, source(false));

    let carried = frame(10.0, 0.0, 200.0, 100.0);
    let mut native = native(true, carried, scene(rect()));
    let before = native.source();
    motion(&mut native, 150.0, 20.0);
    assert_eq!(native.source(), before);
}

#[test]
fn resizing_leaves_the_opposite_edges() {
    let mut actor = DragActor::new(settings());
    begin_modifier(
        &mut actor,
        source(true),
        point(10.0, 10.0),
        MouseAction::Resize,
        DragScene::default(),
    );
    motion(&mut actor, 30.0, 500.0);
    // The right edge stays at 200 and the bottom one at 100.
    assert_eq!(
        actor.interactive_update(),
        Some((w(1), frame(20.0, 99.0, 180.0, 1.0)))
    );
}

#[test]
fn clones_and_defaults_agree() {
    let mut actor = native(true, rect(), scene(rect()));
    motion(&mut actor, 100.0, 50.0);
    let mut copy = actor.clone();
    assert_eq!(copy.intent(), actor.intent());
    assert!(copy.finish(MouseButton::Left).is_some());
    assert!(actor.is_active());
    assert!(matches!(State::default(), State::Idle));
    assert!(DragScene::default().targets.is_empty());
}

#[test]
fn nearest_offering_target_wins() {
    // From (100, 100) the second window is 50 away and the fourth 49; from the
    // origin the third is 50 away, as 30 and 40 along the axes.
    let scene = scene_with(vec![
        target(2, frame(150.0, 0.0, 100.0, 100.0)),
        target(3, frame(-130.0, -140.0, 100.0, 100.0)),
        target(4, frame(0.0, 149.0, 100.0, 100.0)),
    ]);
    let at = point(100.0, 100.0);
    assert_eq!(hit(&scene, at, MouseDropAction::Swap, None).unwrap().window, w(4));
    let corner = point(0.0, 0.0);
    assert_eq!(hit(&scene, corner, MouseDropAction::Swap, None).unwrap().window, w(3));

    let mut actor = native(false, rect(), DragScene::default());
    actor.cancel();
    let far = frame(1000.0, 1000.0, 10.0, 10.0);
    let mut source = source(true);
    source.origin_frame = far;
    source.last_frame = far;
    begin_native(&mut actor, source, scene);
    motion(&mut actor, 100.0, 100.0);
    let nearest = actor.intent().unwrap();
    assert_eq!(nearest.window, w(4));
    assert!(set_preview(&mut actor, nearest, None));
    assert_eq!(actor.intent().unwrap().window, w(2));
}

#[test]
fn publications_ask_for_one_wake_between_takes() {
    let mut publisher = DragMotionPublisher::new();
    let sample = |x: f64| DragMotion { point: point(x, 0.0) };
    assert!(publisher.take_latest().is_none());
    assert!(publisher.publish(sample(1.0)));
    assert!(!publisher.publish(sample(2.0)));
    assert_eq!(publisher.take_latest(), Some(sample(2.0)));
    assert!(publisher.take_latest().is_none());
    assert!(publisher.publish(sample(3.0)));
    assert!(publisher.wake_queued());
}

#[test]
fn covered_tiles_offer_no_move_of_their_own() {
    let beside = scene(frame(220.0, 0.0, 200.0, 100.0));
    let mut clear = native(true, rect(), beside);
    motion(&mut clear, 1.0, 50.0);
    assert_eq!(clear.intent().unwrap().window, w(1));
    let mut covered = native(true, rect(), scene(frame(199.0, 0.0, 200.0, 100.0)));
    motion(&mut covered, 1.0, 50.0);
    assert_eq!(covered.intent().unwrap().window, w(2));
}
