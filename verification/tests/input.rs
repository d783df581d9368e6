use rift_drag::event_tap::{
    build_event_mask, mouse_move_sampling_profile, mouse_window_hint, EventTap, EventType,
    PointerFacts, Request, ScreenState, TapEffect, TapEvent,
};
use rift_drag::geometry::{Point, Rect, Size};
use rift_drag::hotkeys::{HotkeyTable, WmCommand};
use rift_drag::ids::{SpaceId, WindowServerId};
use rift_drag::keys::{
    EventFlags, Hotkey, KeyCode, KeySet, Modifiers, ALT_LEFT, ALT_RIGHT, META_LEFT, SHIFT_LEFT,
    SHIFT_RIGHT,
};
use rift_drag::modifier_drag::{
    ModifierDrag, MouseDragAction, MODIFIER_DRAG_MIN_INTERVAL_NS,
};
use rift_drag::scalar::Scalar;
use rift_drag::settings::{
    CoordinateConverter, LayoutMode, MouseState, StackLineHoverMode, TapConfig,
};

const SHIFT_LEFT_FLAG: u64 = 0x2;
const MASK_SHIFT: u64 = 0x0002_0000;
const MASK_COMMAND: u64 = 0x0010_0000;

fn s(value: f64) -> Scalar {
    Scalar::from_bits(value.to_bits())
}

fn point(x: f64, y: f64) -> Point {
    Point { x: s(x), y: s(y) }
}

fn frame(x: f64, y: f64, width: f64, height: f64) -> Rect {
    Rect { origin: point(x, y), size: Size { width: s(width), height: s(height) } }
}

fn total(drag: &ModifierDrag, loc: Point) -> Point {
    let sum = |pending: Scalar, to: Scalar, from: Scalar| {
        s(f64::from_bits(pending.bits) + (f64::from_bits(to.bits) - f64::from_bits(from.bits)))
    };
    Point {
        x: sum(drag.pending.x, loc.x, drag.last.x),
        y: sum(drag.pending.y, loc.y, drag.last.y),
    }
}

fn config() -> TapConfig {
    TapConfig {
        mouse_hides_on_focus: false,
        mouse_modifier: None,
        focus_follows_mouse: false,
        focus_follows_mouse_disable_hotkey: None,
        stack_line_enabled: false,
        stack_line_hover: StackLineHoverMode::Hover,
        layout_mode: LayoutMode::Traditional,
    }
}

fn none_held() -> Modifiers {
    Modifiers { bits: 0 }
}

fn tap(config: TapConfig) -> EventTap {
    EventTap::new(config, false, none_held(), CoordinateConverter { screen_height: s(0.0) })
}

fn processing(config: TapConfig) -> EventTap {
    let mut tap = tap(config);
    tap.on_request(Request::SetEventProcessing(true));
    tap
}

fn shift_left() -> KeyCode {
    KeyCode { code: 56, side_mask: SHIFT_LEFT_FLAG }
}

fn key_a() -> KeyCode {
    KeyCode { code: 0, side_mask: 0 }
}

fn event(kind: EventType) -> TapEvent {
    TapEvent {
        kind,
        flags: EventFlags { bits: 0 },
        location: point(10.0, 10.0),
        timestamp: 0,
        key: None,
        repeat: false,
        synthetic: false,
        window_field: 0,
    }
}

fn key_event(kind: EventType, key: KeyCode, flags: u64) -> TapEvent {
    TapEvent { key: Some(key), flags: EventFlags { bits: flags }, ..event(kind) }
}

fn nowhere() -> PointerFacts {
    PointerFacts {
        over_indicator: false,
        occluded: false,
        window: None,
        window_center: None,
        drag_total: point(0.0, 0.0),
    }
}

fn over(window: u32) -> PointerFacts {
    PointerFacts {
        window: Some(WindowServerId::new(window)),
        window_center: Some(point(100.0, 100.0)),
        ..nowhere()
    }
}

fn send(tap: &mut EventTap, event: TapEvent, facts: PointerFacts) -> (bool, Vec<TapEffect>) {
    let reply = tap.on_event(&event, none_held(), &facts);
    (reply.deliver, reply.effects)
}

#[test]
fn modifier_drag_throttles_updates_without_losing_distance() {
    let mut drag = ModifierDrag {
        window: WindowServerId::new(1),
        action: MouseDragAction::Move,
        last: point(0.0, 0.0),
        pending: point(0.0, 0.0),
        last_emit: 0,
    };
    let accumulate = |drag: &mut ModifierDrag, loc: Point, timestamp: u64| {
        let total = total(drag, loc);
        drag.accumulate(loc, timestamp, total)
    };

    // The first sample is not withheld.
    assert_eq!(
        accumulate(&mut drag, point(4.0, 0.0), MODIFIER_DRAG_MIN_INTERVAL_NS),
        Some(point(4.0, 0.0))
    );

    // Samples inside the interval accumulate instead of dispatching.
    let mut timestamp = MODIFIER_DRAG_MIN_INTERVAL_NS;
    for step in 1..=3 {
        timestamp += MODIFIER_DRAG_MIN_INTERVAL_NS / 4;
        assert_eq!(
            accumulate(&mut drag, point(4.0 + f64::from(step), 0.0), timestamp),
            None
        );
    }

    // Crossing the interval releases every withheld pixel at once.
    timestamp += MODIFIER_DRAG_MIN_INTERVAL_NS;
    assert_eq!(
        accumulate(&mut drag, point(10.0, 0.0), timestamp),
        Some(point(6.0, 0.0))
    );

    // Nothing left over, and a still cursor dispatches nothing.
    assert_eq!(drag.flush(), None);
}

#[test]
fn layout_mode_at_point_uses_space_mapping() {
    let mut tap = tap(config());
    let left_space = SpaceId::new(1);
    let right_space = SpaceId::new(2);
    tap.on_request(Request::SpaceStateUpdated(
        vec![
            ScreenState { frame: frame(0.0, 0.0, 100.0, 100.0), space: Some(left_space) },
            ScreenState { frame: frame(100.0, 0.0, 100.0, 100.0), space: Some(right_space) },
        ],
        CoordinateConverter { screen_height: s(100.0) },
    ));
    tap.on_request(Request::LayoutModesChanged(vec![
        (left_space, LayoutMode::Traditional),
        (right_space, LayoutMode::Scrolling),
    ]));
    let inside = |tap: &EventTap, x: f64, y: f64| -> Vec<bool> {
        tap.screen_spaces()
            .iter()
            .map(|(frame, _)| {
                let (fx, fy) = (f64::from_bits(frame.origin.x.bits), f64::from_bits(frame.origin.y.bits));
                let width = f64::from_bits(frame.size.width.bits);
                let height = f64::from_bits(frame.size.height.bits);
                x >= fx && x < fx + width && y >= fy && y < fy + height
            })
            .collect()
    };

    assert_eq!(
        tap.layout_mode_at_point(&inside(&tap, 50.0, 50.0)),
        Some(LayoutMode::Traditional)
    );
    assert_eq!(
        tap.layout_mode_at_point(&inside(&tap, 150.0, 50.0)),
        Some(LayoutMode::Scrolling)
    );
    assert_eq!(tap.layout_mode_at_point(&inside(&tap, 250.0, 50.0)), None);
}

#[test]
fn tap_recovery_discards_cached_keys_and_uses_live_flags() {
    let mut tap = tap(config());
    send(
        &mut tap,
        key_event(EventType::FlagsChanged, shift_left(), SHIFT_LEFT_FLAG),
        nowhere(),
    );
    send(&mut tap, key_event(EventType::KeyDown, key_a(), SHIFT_LEFT_FLAG), nowhere());
    assert_eq!(tap.key_state().pressed.len(), 2);

    let live_flags = EventFlags { bits: MASK_SHIFT | MASK_COMMAND };
    tap.reconcile_after_tap_reenabled(live_flags, none_held());

    assert!(tap.key_state().pressed.is_empty());
    assert_eq!(tap.key_state().flags, live_flags);
}

#[test]
fn masks_hold_the_wanted_events() {
    assert_eq!(build_event_mask(false, false), 0b1101_1110);
    assert_eq!(build_event_mask(false, true), 0b1111_1110);
    assert_eq!(build_event_mask(true, false), 0b1_1100_1101_1110);
    assert_eq!(build_event_mask(true, true), 0b1_1100_1111_1110);
    assert_eq!(mouse_move_sampling_profile(false), 8_000_000);
    assert_eq!(mouse_move_sampling_profile(true), 16_000_000);
}

#[test]
fn hints_are_positive_window_numbers() {
    assert_eq!(mouse_window_hint(0), None);
    assert_eq!(mouse_window_hint(-1), None);
    assert_eq!(mouse_window_hint(7), Some(WindowServerId::new(7)));
    assert_eq!(mouse_window_hint(4_294_967_295), Some(WindowServerId::new(u32::MAX)));
    assert_eq!(mouse_window_hint(4_294_967_296), None);
}

#[test]
fn modifiers_of_either_side_cover_both() {
    let held = |bits: u8| Modifiers { bits };
    let generic_shift = held(SHIFT_LEFT | SHIFT_RIGHT);
    assert!(held(SHIFT_RIGHT | ALT_LEFT).cover(generic_shift));
    assert!(!held(ALT_LEFT).cover(generic_shift));
    assert!(!held(ALT_LEFT).cover(held(ALT_RIGHT)));
    assert!(held(ALT_LEFT | META_LEFT).cover(held(META_LEFT)));
    assert!(held(0).cover(held(0)));
}

#[test]
fn reconciliation_drops_modifiers_that_are_up() {
    let mut keys = KeySet::new();
    keys.insert(shift_left());
    keys.insert(key_a());
    keys.insert(key_a());
    keys.reconcile(EventFlags { bits: SHIFT_LEFT_FLAG });
    assert!(keys.contains(shift_left()));
    keys.reconcile(EventFlags { bits: 0 });
    assert!(!keys.contains(shift_left()));
    assert_eq!(keys.to_vec(), vec![key_a()]);
    keys.remove(key_a());
    assert!(keys.is_empty());
}

#[test]
fn hotkeys_run_their_commands_once_and_in_order() {
    let hotkey = |code: u16| Hotkey {
        modifiers: Modifiers { bits: SHIFT_LEFT },
        key_code: KeyCode { code, side_mask: 0 },
    };
    let command = |id: u64| WmCommand { id };
    let specs = vec![
        ("shift + a".to_string(), command(1)),
        ("shift + a, again".to_string(), command(1)),
        ("nonsense".to_string(), command(2)),
        ("either shift + a".to_string(), command(3)),
    ];
    let resolutions = vec![
        Some(vec![hotkey(0)]),
        Some(vec![hotkey(0)]),
        None,
        Some(vec![hotkey(0), hotkey(1)]),
    ];
    let table = HotkeyTable::rebuild(&resolutions, &specs);
    assert_eq!(table.get(hotkey(0)), Some(&vec![command(1), command(3)]));
    assert_eq!(table.get(hotkey(1)), Some(&vec![command(3)]));
    assert_eq!(table.get(hotkey(2)), None);
    assert!(!table.is_empty());
    assert!(HotkeyTable::rebuild(&vec![None], &vec![("x".to_string(), command(1))]).is_empty());
}

#[test]
fn bound_keys_are_press_triggered() {
    let mut tap = tap(config());
    let hotkey = Hotkey { modifiers: Modifiers { bits: META_LEFT }, key_code: key_a() };
    let reply = tap.on_request(Request::SetHotkeys(
        vec![("meta + a".to_string(), WmCommand { id: 5 })],
        vec![Some(vec![hotkey])],
    ));
    assert_eq!(reply.rebuild, Some(build_event_mask(true, false)));
    tap.tap_created(build_event_mask(true, false));
    assert_eq!(tap.needed_event_mask(), None);

    let down = key_event(EventType::KeyDown, key_a(), 0);
    let held = Modifiers { bits: META_LEFT };
    let reply = tap.on_event(&down, held, &nowhere());
    assert!(!reply.deliver);
    assert_eq!(reply.effects, vec![TapEffect::Command(WmCommand { id: 5 })]);

    let repeated = tap.on_event(&TapEvent { repeat: true, ..down }, held, &nowhere());
    assert!(!repeated.deliver);
    assert!(repeated.effects.is_empty());

    let other = tap.on_event(&down, none_held(), &nowhere());
    assert!(other.deliver);
    let own = tap.on_event(&TapEvent { synthetic: true, ..down }, held, &nowhere());
    assert!(own.deliver);

    // Under another layout the specification resolves to nothing.
    let reply = tap.on_request(Request::KeyboardLayoutChanged(vec![None]));
    assert_eq!(reply.rebuild, Some(build_event_mask(false, false)));
    assert!(tap.on_event(&down, held, &nowhere()).deliver);
    assert_eq!(tap.hotkey_specs().len(), 1);
}

#[test]
fn clicks_on_an_indicator_go_to_the_stack_line() {
    let mut tap = tap(config());
    let facts = PointerFacts { over_indicator: true, ..nowhere() };
    let (deliver, effects) = send(&mut tap, event(EventType::LeftMouseDown), facts);
    assert!(!deliver);
    assert_eq!(
        effects,
        vec![
            TapEffect::SetMouseState(MouseState::Down),
            TapEffect::StackLineMouseDown(point(10.0, 10.0)),
        ]
    );
    let covered = PointerFacts { occluded: true, ..facts };
    let (deliver, effects) = send(&mut tap, event(EventType::LeftMouseDown), covered);
    assert!(deliver);
    assert_eq!(effects, vec![TapEffect::SetMouseState(MouseState::Down)]);
}

#[test]
fn modifier_drag_runs_from_press_to_release() {
    let modifier = Modifiers { bits: META_LEFT };
    let mut tap = processing(TapConfig { mouse_modifier: Some(modifier), ..config() });
    let press = tap.on_event(&event(EventType::LeftMouseDown), modifier, &over(3));
    assert!(!press.deliver);
    let drag = tap.modifier_drag().unwrap();
    assert_eq!(drag.window, WindowServerId::new(3));
    assert_eq!(drag.action, MouseDragAction::Move);

    let moved = |x: f64, timestamp: u64| TapEvent {
        location: point(x, 10.0),
        timestamp,
        ..event(EventType::LeftMouseDragged)
    };
    let step = |tap: &mut EventTap, x: f64, timestamp: u64| {
        let event = moved(x, timestamp);
        let facts = PointerFacts {
            drag_total: total(&tap.modifier_drag().unwrap(), event.location),
            ..nowhere()
        };
        tap.on_event(&event, none_held(), &facts)
    };
    let first = step(&mut tap, 14.0, 16_000_000);
    assert!(!first.deliver);
    let motion = |dx: f64| TapEffect::ModifierDrag {
        window: WindowServerId::new(3),
        action: MouseDragAction::Move,
        delta: point(dx, 0.0),
    };
    assert_eq!(first.effects, vec![TapEffect::SetMouseState(MouseState::Down), motion(4.0)]);
    let second = step(&mut tap, 20.0, 16_000_001);
    assert_eq!(second.effects, vec![TapEffect::SetMouseState(MouseState::Down)]);

    // What was held back lands before the release.
    let (deliver, effects) = send(&mut tap, event(EventType::LeftMouseUp), nowhere());
    assert!(!deliver);
    assert_eq!(
        effects,
        vec![TapEffect::SetMouseState(MouseState::Up), motion(6.0), TapEffect::MouseUp]
    );
    assert!(tap.modifier_drag().is_none());

    let (deliver, effects) = send(&mut tap, event(EventType::LeftMouseUp), nowhere());
    assert!(deliver);
    assert_eq!(effects, vec![TapEffect::SetMouseState(MouseState::Up), TapEffect::MouseUp]);
}

#[test]
fn right_press_resizes_by_the_nearest_sides() {
    let modifier = Modifiers { bits: META_LEFT };
    let mut tap = processing(TapConfig { mouse_modifier: Some(modifier), ..config() });
    let press = TapEvent { location: point(99.0, 101.0), ..event(EventType::RightMouseDown) };
    assert!(!tap.on_event(&press, modifier, &over(3)).deliver);
    assert_eq!(
        tap.modifier_drag().unwrap().action,
        MouseDragAction::Resize { left: true, top: false }
    );

    let mut other = processing(TapConfig { mouse_modifier: Some(modifier), ..config() });
    let unknown = PointerFacts { window_center: None, ..over(3) };
    assert!(other.on_event(&press, modifier, &unknown).deliver);
    assert!(other.on_event(&press, none_held(), &over(3)).deliver);
    assert!(other.on_event(&press, modifier, &nowhere()).deliver);
    assert!(other.modifier_drag().is_none());
}

#[test]
fn focus_follows_transitions_only() {
    let mut tap = processing(TapConfig { focus_follows_mouse: true, ..config() });
    let moved = |field: i64| TapEvent { window_field: field, ..event(EventType::MouseMoved) };
    let entered = |id: u32| {
        vec![
            TapEffect::NoteActivity(WindowServerId::new(id)),
            TapEffect::MouseMoved(WindowServerId::new(id)),
        ]
    };
    assert_eq!(send(&mut tap, moved(7), over(7)), (true, entered(7)));
    // The same claim needs no lookup, whatever that would say.
    assert_eq!(send(&mut tap, moved(7), over(8)), (true, vec![]));
    assert_eq!(send(&mut tap, moved(9), over(7)), (true, vec![]));
    // Without a claim the window is looked up.
    assert_eq!(send(&mut tap, moved(0), over(8)), (true, entered(8)));
    assert_eq!(send(&mut tap, moved(0), nowhere()), (true, vec![]));
    assert_eq!(send(&mut tap, moved(0), over(8)), (true, entered(8)));
    // A warp forgets the window.
    tap.on_request(Request::Warp(point(0.0, 0.0)));
    assert_eq!(send(&mut tap, moved(0), over(8)), (true, entered(8)));
    tap.on_request(Request::SetFocusFollowsMouseEnabled(false));
    assert_eq!(send(&mut tap, moved(0), over(5)), (true, vec![]));
}

#[test]
fn held_hotkey_suspends_focus_following() {
    let hotkey = Hotkey { modifiers: none_held(), key_code: shift_left() };
    let mut tap = processing(TapConfig {
        focus_follows_mouse: true,
        focus_follows_mouse_disable_hotkey: Some(hotkey),
        ..config()
    });
    let moved = |flags: u64| TapEvent {
        flags: EventFlags { bits: flags },
        ..event(EventType::MouseMoved)
    };
    assert_eq!(send(&mut tap, moved(0), over(1)).1.len(), 2);
    send(
        &mut tap,
        key_event(EventType::FlagsChanged, shift_left(), SHIFT_LEFT_FLAG),
        nowhere(),
    );
    assert_eq!(send(&mut tap, moved(SHIFT_LEFT_FLAG), over(2)), (true, vec![]));
    // The release was lost; the next move shows it, and starts afresh.
    assert_eq!(send(&mut tap, moved(0), over(1)).1.len(), 2);
    assert!(tap.key_state().pressed.is_empty());
}

#[test]
fn stack_line_hears_changes_or_every_sample() {
    let hit = PointerFacts { over_indicator: true, ..nowhere() };
    let told = |hits: bool| {
        vec![TapEffect::StackLineMouseMoved {
            point: point(10.0, 10.0),
            hits_indicator: hits,
        }]
    };
    let moved = event(EventType::MouseMoved);
    let mut click = processing(TapConfig {
        stack_line_enabled: true,
        stack_line_hover: StackLineHoverMode::Click,
        ..config()
    });
    assert_eq!(send(&mut click, moved, hit), (true, told(true)));
    assert_eq!(send(&mut click, moved, hit), (true, vec![]));
    assert_eq!(send(&mut click, moved, nowhere()), (true, told(false)));

    let mut hover = processing(TapConfig { stack_line_enabled: true, ..config() });
    assert_eq!(send(&mut hover, moved, hit), (true, told(true)));
    assert_eq!(send(&mut hover, moved, hit), (true, told(true)));
}

#[test]
fn hidden_mouse_is_shown_as_often() {
    let mut tap = processing(TapConfig { mouse_hides_on_focus: true, ..config() });
    assert!(tap.on_request(Request::EnforceHidden).effects.is_empty());
    assert_eq!(
        tap.on_request(Request::Warp(point(1.0, 2.0))).effects,
        vec![TapEffect::WarpMouse(point(1.0, 2.0)), TapEffect::HideMouse]
    );
    assert!(tap.on_request(Request::HideOnFocus).effects.is_empty());
    assert_eq!(tap.on_request(Request::EnforceHidden).effects, vec![TapEffect::HideMouse]);
    assert_eq!(tap.hide_count(), 2);
    let (_, effects) = send(&mut tap, event(EventType::MouseMoved), nowhere());
    assert_eq!(effects, vec![TapEffect::ShowMouse { times: 2 }]);
    assert_eq!(tap.hide_count(), 0);

    tap.on_request(Request::HideOnFocus);
    let reply = tap.on_request(Request::ConfigUpdated(config(), none_held()));
    assert_eq!(reply.effects, vec![TapEffect::ShowMouse { times: 1 }]);
}

#[test]
fn moves_are_admitted_at_the_sampling_rate() {
    let mut tap = tap(config());
    assert!(tap.admit_mouse_move(5));
    assert!(!tap.admit_mouse_move(8_000_004));
    assert!(!tap.admit_mouse_move(0));
    assert!(tap.admit_mouse_move(8_000_005));
    tap.on_request(Request::SetLowPowerMode(true));
    assert!(tap.admit_mouse_move(8_000_006));
    assert!(!tap.admit_mouse_move(24_000_005));
    assert!(tap.admit_mouse_move(24_000_006));
}

#[test]
fn masks_follow_what_is_handled() {
    let mut tap = tap(TapConfig { stack_line_enabled: true, ..config() });
    assert_eq!(tap.event_mask(), build_event_mask(false, false));
    assert_eq!(tap.needed_event_mask(), None);
    let reply = tap.on_request(Request::SetEventProcessing(true));
    assert_eq!(reply.rebuild, Some(build_event_mask(false, true)));
    assert_eq!(tap.desired_event_mask(), build_event_mask(false, true));
    let generation = tap.next_tap_generation();
    tap.tap_created(build_event_mask(false, true));
    assert!(tap.is_current_tap(generation));
    assert!(!tap.is_current_tap(generation - 1));
    assert_eq!(tap.on_request(Request::SetEventProcessing(true)).rebuild, None);
}

#[test]
fn processing_off_reports_the_button_and_nothing_else() {
    let mut tap = tap(TapConfig { focus_follows_mouse: true, ..config() });
    assert_eq!(send(&mut tap, event(EventType::MouseMoved), over(1)), (true, vec![]));
    assert_eq!(
        send(&mut tap, event(EventType::LeftMouseUp), nowhere()),
        (true, vec![TapEffect::SetMouseState(MouseState::Up)])
    );
    let after = tap.key_state_after(&key_event(EventType::KeyDown, key_a(), 4));
    assert_eq!((after.flags.bits, after.pressed), (4, vec![key_a()]));
    assert!(tap.key_state().pressed.is_empty());
}

#[test]
fn released_motion_adds_up_to_the_way() {
    let mut drag = ModifierDrag {
        window: WindowServerId::new(1),
        action: MouseDragAction::Move,
        last: point(3.0, -2.0),
        pending: point(0.0, 0.0),
        last_emit: 0,
    };
    let mut sum = (0.0, 0.0);
    let mut emitted = Vec::new();
    let mut add = |delta: Option<Point>| {
        if let Some(delta) = delta {
            sum.0 += f64::from_bits(delta.x.bits);
            sum.1 += f64::from_bits(delta.y.bits);
        }
    };
    for step in 1..=40u32 {
        let loc = point(3.0 + 1.5 * f64::from(step), -2.0 - 0.25 * f64::from(step % 7));
        let timestamp = u64::from(step) * 5_000_000;
        let total = total(&drag, loc);
        let delta = drag.accumulate(loc, timestamp, total);
        if delta.is_some() {
            emitted.push(timestamp);
        }
        add(delta);
    }
    add(drag.flush());
    assert_eq!(sum, (60.0, -1.25));
    assert!(emitted.windows(2).all(|pair| pair[1] - pair[0] >= MODIFIER_DRAG_MIN_INTERVAL_NS));
    assert_eq!(drag.flush(), None);
}

#[test]
fn lookups_are_asked_for_where_they_matter() {
    let hotkey = Hotkey { modifiers: none_held(), key_code: shift_left() };
    let modifier = Modifiers { bits: META_LEFT };
    let config = TapConfig {
        focus_follows_mouse: true,
        focus_follows_mouse_disable_hotkey: Some(hotkey),
        mouse_modifier: Some(modifier),
        ..config()
    };
    let moved = |field: i64, flags: u64| TapEvent {
        window_field: field,
        flags: EventFlags { bits: flags },
        ..event(EventType::MouseMoved)
    };
    assert!(!tap(config).needs_window_lookup(&moved(7, 0), none_held()));
    let mut tap = processing(config);
    assert!(tap.needs_window_lookup(&moved(7, 0), none_held()));
    send(&mut tap, moved(7, 0), over(7));
    assert!(!tap.needs_window_lookup(&moved(7, 0), none_held()));
    assert!(tap.needs_window_lookup(&moved(8, 0), none_held()));
    assert!(tap.needs_window_lookup(&moved(0, 0), none_held()));
    // The hotkey is found held, and then found released.
    assert!(!tap.needs_window_lookup(&moved(8, SHIFT_LEFT_FLAG), none_held()));
    send(&mut tap, moved(8, SHIFT_LEFT_FLAG), nowhere());
    assert!(tap.needs_window_lookup(&moved(7, 0), none_held()));

    let press = event(EventType::RightMouseDown);
    assert!(tap.needs_window_lookup(&press, modifier));
    assert!(!tap.needs_window_lookup(&press, none_held()));
    assert!(!tap.needs_window_lookup(&event(EventType::LeftMouseUp), modifier));
}

#[test]
fn held_keys_are_listed_once() {
    let mut tap = tap(config());
    for _ in 0..3 {
        send(&mut tap, key_event(EventType::KeyDown, key_a(), 0), nowhere());
    }
    assert_eq!(tap.key_state().pressed, vec![key_a()]);
    send(&mut tap, key_event(EventType::KeyUp, key_a(), 0), nowhere());
    assert!(tap.key_state().pressed.is_empty());
}
