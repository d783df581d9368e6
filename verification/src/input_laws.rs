//! What each input event and each request does to the tap, and what it asks to
//! be done.

use crate::event_tap::{
    event_mask_of, initial_tap, modes_of, sampling_interval, shown_spaces, EventType,
    PointerFacts, Request, ScreenState, TapEffect, TapEvent, TapView,
};
use crate::exact::{law_order_is_exact, law_zero_and_one_are_exact};
use crate::geometry::{Point, Rect};
use crate::hotkeys::{
    bindings, commands_for, law_hotkey_runs_its_commands_once, spec_commands, stands_for,
    Resolution, WmCommand,
};
use crate::ids::{SpaceId, WindowServerId};
use crate::keys::{EventFlags, Hotkey, KeyCode, Modifiers};
use crate::modifier_drag::ModifierDrag;
use crate::settings::{CoordinateConverter, LayoutMode, MouseState, TapConfig};
use vstd::prelude::*;

verus! {

/// What is held of one family: where both sides are wanted, either; else each
/// side that is wanted.
pub open spec fn family_held(held: u8, wanted: u8, left: u8, right: u8) -> bool {
    if wanted & left == left && wanted & right == right {
        held & left == left || held & right == right
    } else {
        (wanted & left == left ==> held & left == left) && (wanted & right == right ==> held & right
            == right)
    }
}

/// Every family of modifiers that `wanted` names is held.
pub open spec fn all_held(held: Modifiers, wanted: Modifiers) -> bool {
    &&& family_held(held.bits, wanted.bits, 0x01, 0x02)
    &&& family_held(held.bits, wanted.bits, 0x04, 0x08)
    &&& family_held(held.bits, wanted.bits, 0x10, 0x20)
    &&& family_held(held.bits, wanted.bits, 0x40, 0x80)
}

/// The key is down: one with a flag of its own by that flag, any other among
/// the pressed keys.
pub open spec fn down(flags: EventFlags, pressed: Set<KeyCode>, key: KeyCode) -> bool {
    if key.side_mask == 0 {
        pressed.contains(key)
    } else {
        flags.bits & key.side_mask != 0
    }
}

pub open spec fn is_key_event(kind: EventType) -> bool {
    kind is KeyDown || kind is KeyUp || kind is FlagsChanged
}

pub open spec fn is_press(kind: EventType) -> bool {
    kind is LeftMouseDown || kind is RightMouseDown
}

pub open spec fn is_drag(kind: EventType) -> bool {
    kind is LeftMouseDragged || kind is RightMouseDragged
}

pub open spec fn is_release(kind: EventType) -> bool {
    kind is LeftMouseUp || kind is RightMouseUp
}

/// The pointer is on the indicator of a stack, and nothing covers it.
pub open spec fn on_indicator(facts: PointerFacts) -> bool {
    facts.over_indicator && !facts.occluded
}

/// What shows a mouse that was hidden `times` times.
pub open spec fn showing(times: u32) -> Seq<TapEffect> {
    if times == 0 {
        Seq::empty()
    } else {
        seq![TapEffect::ShowMouse { times }]
    }
}

/// The motion `delta` of a drag, unless it is none.
pub open spec fn moving(drag: ModifierDrag, delta: Point) -> Seq<TapEffect> {
    if delta.x.units() == 0 && delta.y.units() == 0 {
        Seq::empty()
    } else {
        seq![TapEffect::ModifierDrag { window: drag.window, action: drag.action, delta }]
    }
}

/// Settings, screens, hotkeys and the tap itself are the same.
pub open spec fn same_settings(a: TapView, b: TapView) -> bool {
    &&& a.mouse_hides_on_focus == b.mouse_hides_on_focus
    &&& a.focus_follows_mouse_config_enabled == b.focus_follows_mouse_config_enabled
    &&& a.default_layout_mode == b.default_layout_mode && a.converter == b.converter
    &&& a.screens == b.screens && a.event_processing_enabled == b.event_processing_enabled
    &&& a.focus_follows_mouse_enabled == b.focus_follows_mouse_enabled
    &&& a.stack_line_enabled == b.stack_line_enabled
    &&& a.stack_line_hover_mode == b.stack_line_hover_mode
    &&& a.mouse_modifier == b.mouse_modifier && a.low_power_mode == b.low_power_mode
    &&& a.screen_spaces == b.screen_spaces && a.layout_mode_by_space == b.layout_mode_by_space
    &&& a.event_mask == b.event_mask && a.tap_generation == b.tap_generation
    &&& a.mouse_move_min_interval_ns == b.mouse_move_min_interval_ns
    &&& a.disable_hotkey == b.disable_hotkey && a.hotkey_specs == b.hotkey_specs
    &&& a.hotkeys == b.hotkeys
}

/// The keys that are held, and whether they suspend focus-follows-mouse, are
/// the same.
pub open spec fn same_keys(a: TapView, b: TapView) -> bool {
    a.pressed_keys == b.pressed_keys && a.current_flags == b.current_flags
        && a.disable_hotkey_active == b.disable_hotkey_active
}

/// What is remembered of mouse moves is the same.
pub open spec fn same_moves(a: TapView, b: TapView) -> bool {
    a.last_stack_line_hit == b.last_stack_line_hit && a.mouse_move_last_timestamp
        == b.mouse_move_last_timestamp && a.mouse_window == b.mouse_window
}

/// Nothing is remembered of mouse moves.
pub open spec fn no_moves(tap: TapView) -> bool {
    tap.last_stack_line_hit is None && tap.mouse_move_last_timestamp is None
        && !tap.mouse_window.valid && tap.mouse_window.hint is None
        && tap.mouse_window.resolved is None
}

/// A mouse that is hidden, and a drag with the modifier held, are the same.
pub open spec fn same_mouse(a: TapView, b: TapView) -> bool {
    a.hide_count == b.hide_count && a.modifier_drag == b.modifier_drag
}

/// Modifiers are asked for family by family.
pub proof fn law_modifiers_are_asked_for_by_family(held: Modifiers, wanted: Modifiers)
    ensures
        held.satisfies(wanted) <==> all_held(held, wanted),
{
}

/// A press with the modifier held on a window begins a drag of that window. With
/// the left button it is a move. With the right one it is a resize, by the left
/// side exactly when the press is left of the window's center, and by the top
/// side exactly when it is above it. The drag starts at the press, with no
/// motion pending, and the application does not see the press.
pub proof fn law_modifier_press_begins_its_drag(
    tap: TapView,
    event: TapEvent,
    active: Modifiers,
    facts: PointerFacts,
    wanted: Modifiers,
    window: WindowServerId,
    center: Point,
)
    requires
        is_press(event.kind),
        tap.event_processing_enabled,
        !on_indicator(facts),
        tap.mouse_modifier == Some(wanted),
        all_held(active, wanted),
        facts.window == Some(window),
        event.kind is RightMouseDown ==> facts.window_center == Some(center) && center.finite()
            && event.location.finite(),
    ensures
        ({
            let handled = tap.handled(event, active, facts);
            &&& !handled.deliver
            &&& handled.effects == seq![TapEffect::SetMouseState(MouseState::Down)] + showing(
                tap.hide_count,
            )
            &&& handled.tap.hide_count == 0
            &&& handled.tap.modifier_drag matches Some(drag) && {
                &&& drag.window == window
                &&& drag.last == event.location
                &&& drag.pending.x.bits == 0 && drag.pending.y.bits == 0
                &&& drag.last_emit == 0
                &&& event.kind is LeftMouseDown ==> drag.action is Move
                &&& event.kind is RightMouseDown ==> {
                    &&& drag.action is Resize
                    &&& drag.action->left <==> event.location.x.units() < center.x.units()
                    &&& drag.action->top <==> event.location.y.units() < center.y.units()
                }
            }
        }),
{
    if event.kind is RightMouseDown {
        law_order_is_exact(event.location.x, center.x);
        law_order_is_exact(event.location.y, center.y);
    }
}

/// A press that lacks the modifier or a window, or a right press on a window
/// whose frame is not known, begins nothing and goes on to the application.
pub proof fn law_other_presses_pass(
    tap: TapView,
    event: TapEvent,
    active: Modifiers,
    facts: PointerFacts,
)
    requires
        is_press(event.kind),
        !on_indicator(facts),
        !tap.event_processing_enabled || facts.window is None || tap.mouse_modifier is None
            || !all_held(active, tap.mouse_modifier->0) || (event.kind is RightMouseDown
            && facts.window_center is None),
    ensures
        ({
            let handled = tap.handled(event, active, facts);
            &&& handled.deliver
            &&& handled.tap.modifier_drag == tap.modifier_drag
            &&& handled.effects == seq![TapEffect::SetMouseState(MouseState::Down)] + (
            if tap.event_processing_enabled {
                showing(tap.hide_count)
            } else {
                Seq::empty()
            })
        }),
{
}

/// A press on a visible indicator goes to the stack line and to nobody else.
pub proof fn law_indicator_takes_the_press(
    tap: TapView,
    event: TapEvent,
    active: Modifiers,
    facts: PointerFacts,
)
    requires
        is_press(event.kind),
        on_indicator(facts),
    ensures
        ({
            let handled = tap.handled(event, active, facts);
            &&& !handled.deliver
            &&& same_mouse(handled.tap, tap)
            &&& handled.effects == seq![
                TapEffect::SetMouseState(MouseState::Down),
                TapEffect::StackLineMouseDown(event.location),
            ]
        }),
{
}

/// Motion of a drag moves it on to the pointer. What has come together is
/// handed over, unless it is nothing, once sixteen milliseconds have passed
/// since the last time, and is otherwise kept. The application does not see it.
pub proof fn law_drag_motion_is_handed_over(
    tap: TapView,
    event: TapEvent,
    active: Modifiers,
    facts: PointerFacts,
    drag: ModifierDrag,
)
    requires
        is_drag(event.kind),
        tap.event_processing_enabled,
        tap.modifier_drag == Some(drag),
        facts.drag_total.finite(),
    ensures
        ({
            let handled = tap.handled(event, active, facts);
            let due = event.timestamp - drag.last_emit >= 16_000_000;
            &&& !handled.deliver
            &&& handled.tap.hide_count == 0
            &&& handled.effects == seq![TapEffect::SetMouseState(MouseState::Down)] + showing(
                tap.hide_count,
            ) + (if due {
                moving(drag, facts.drag_total)
            } else {
                Seq::empty()
            })
            &&& handled.tap.modifier_drag matches Some(now) && {
                &&& now.window == drag.window && now.action == drag.action
                &&& now.last == event.location
                &&& due ==> now.last_emit == event.timestamp && now.pending.x.bits == 0
                    && now.pending.y.bits == 0
                &&& !due ==> now.last_emit == drag.last_emit && now.pending == facts.drag_total
            }
        }),
{
    lemma_no_motion(facts.drag_total);
}

proof fn lemma_no_motion(delta: Point)
    requires
        delta.finite(),
    ensures
        delta.at_zero() <==> delta.x.units() == 0 && delta.y.units() == 0,
{
    law_zero_and_one_are_exact();
    law_order_is_exact(delta.x, crate::scalar::Scalar::spec_zero());
    law_order_is_exact(delta.y, crate::scalar::Scalar::spec_zero());
}

/// Motion that is no number is not nothing: it is handed over.
pub proof fn law_motion_that_is_no_number(delta: Point)
    requires
        delta.x.nan() || delta.y.nan(),
    ensures
        ModifierDrag::release(delta) == Some(delta),
{
}

/// A release ends the drag: what was kept of its motion is handed over, and then
/// the release is told. Without a drag it is told all the same, and goes on to
/// the application.
pub proof fn law_release_ends_the_drag(
    tap: TapView,
    event: TapEvent,
    active: Modifiers,
    facts: PointerFacts,
)
    requires
        is_release(event.kind),
        tap.event_processing_enabled,
        tap.modifier_drag matches Some(drag) ==> drag.pending.finite(),
    ensures
        ({
            let handled = tap.handled(event, active, facts);
            let before = seq![TapEffect::SetMouseState(MouseState::Up)] + showing(tap.hide_count);
            &&& handled.tap.modifier_drag is None
            &&& handled.tap.hide_count == 0
            &&& handled.deliver <==> tap.modifier_drag is None
            &&& match tap.modifier_drag {
                Some(drag) => handled.effects == before + moving(drag, drag.pending).push(
                    TapEffect::MouseUp,
                ),
                None => handled.effects == before.push(TapEffect::MouseUp),
            }
        }),
{
    if let Some(drag) = tap.modifier_drag {
        lemma_no_motion(drag.pending);
    }
    let handled = tap.handled(event, active, facts);
    let before = seq![TapEffect::SetMouseState(MouseState::Up)] + showing(tap.hide_count);
    match tap.modifier_drag {
        Some(drag) => {
            assert(handled.effects =~= before + moving(drag, drag.pending).push(
                TapEffect::MouseUp,
            ));
        },
        None => {
            assert(handled.effects =~= before.push(TapEffect::MouseUp));
        },
    }
}

/// Motion without a drag goes on to the application. While processing is off,
/// drags and releases do nothing but report the state of the button; an event of
/// no known type reports nothing.
pub proof fn law_idle_button_events_pass(
    tap: TapView,
    event: TapEvent,
    active: Modifiers,
    facts: PointerFacts,
)
    requires
        is_drag(event.kind) || is_release(event.kind) || event.kind is Other,
        !tap.event_processing_enabled || (is_drag(event.kind) && tap.modifier_drag is None)
            || event.kind is Other,
    ensures
        ({
            let handled = tap.handled(event, active, facts);
            &&& handled.deliver
            &&& handled.tap.modifier_drag == tap.modifier_drag
            &&& handled.tap.hide_count == (if tap.event_processing_enabled {
                0
            } else {
                tap.hide_count
            })
            &&& handled.effects == (if is_drag(event.kind) {
                seq![TapEffect::SetMouseState(MouseState::Down)]
            } else if is_release(event.kind) {
                seq![TapEffect::SetMouseState(MouseState::Up)]
            } else {
                Seq::empty()
            }) + (if tap.event_processing_enabled {
                showing(tap.hide_count)
            } else {
                Seq::empty()
            })
        }),
{
}

/// The keys that are held after an event. A press adds its key and a release
/// removes it; a change of flags adds or removes the modifier key it is about,
/// as the flags say. Any other event whose flags are new drops the modifier keys
/// that these do not report. The flags are those of the event. Shortcuts that
/// the window manager sent itself count for nothing, and neither do mouse moves
/// while no hotkey or no processing depends on them.
pub proof fn law_events_report_keys(
    tap: TapView,
    event: TapEvent,
    active: Modifiers,
    facts: PointerFacts,
    key: KeyCode,
)
    ensures
        ({
            let after = tap.handled(event, active, facts).tap;
            let deaf = if is_key_event(event.kind) {
                event.synthetic
            } else if event.kind is MouseMoved {
                !tap.event_processing_enabled || tap.disable_hotkey is None
            } else {
                false
            };
            let was = tap.pressed_keys.contains(key);
            let about = event.key == Some(key);
            &&& same_settings(after, tap)
            &&& deaf ==> same_keys(after, tap)
            &&& !deaf ==> {
                &&& after.current_flags == event.flags
                &&& after.pressed_keys.contains(key) == (if event.kind is KeyDown {
                    was || about
                } else if event.kind is KeyUp {
                    was && !about
                } else if event.kind is FlagsChanged {
                    if about && key.side_mask != 0 {
                        event.flags.bits & key.side_mask != 0
                    } else {
                        was
                    }
                } else if event.flags == tap.current_flags {
                    was
                } else {
                    was && (key.side_mask != 0 ==> event.flags.bits & key.side_mask != 0)
                })
            }
            &&& is_key_event(event.kind) ==> same_mouse(after, tap)
        }),
{
}

/// Focus-follows-mouse is suspended exactly while its hotkey is held, as each
/// event that reports keys finds it. The end of the suspension forgets the mouse
/// moves before it; nothing else but a move touches them.
pub proof fn law_hotkey_suspends(
    tap: TapView,
    event: TapEvent,
    active: Modifiers,
    facts: PointerFacts,
)
    ensures
        ({
            let after = tap.handled(event, active, facts).tap;
            let reports = if is_key_event(event.kind) {
                !event.synthetic
            } else if event.kind is MouseMoved {
                tap.event_processing_enabled && event.flags != tap.current_flags
            } else {
                event.flags != tap.current_flags
            };
            &&& after.disable_hotkey_active == match tap.disable_hotkey {
                Some(hotkey) if reports => all_held(active, hotkey.modifiers) && down(
                    after.current_flags,
                    after.pressed_keys,
                    hotkey.key_code,
                ),
                _ => tap.disable_hotkey_active,
            }
            &&& !(event.kind is MouseMoved) ==> if tap.disable_hotkey_active
                && !after.disable_hotkey_active {
                no_moves(after)
            } else {
                same_moves(after, tap)
            }
        }),
{
}

/// A mouse move that is processed shows a hidden mouse, tells the stack line
/// where the pointer is, in hover mode always and in click mode when it comes
/// onto an indicator or leaves it, and reports the window that focus is to
/// follow to when it is another one than last time. It always goes on to the
/// application.
pub proof fn law_move_reports_what_is_new(
    tap: TapView,
    event: TapEvent,
    active: Modifiers,
    facts: PointerFacts,
)
    requires
        event.kind is MouseMoved,
        tap.event_processing_enabled,
    ensures
        ({
            let handled = tap.handled(event, active, facts);
            let after = handled.tap;
            let resumed = tap.disable_hotkey_active && !after.disable_hotkey_active;
            let hits = on_indicator(facts);
            let told = tap.stack_line_enabled && (tap.stack_line_hover_mode is Hover || resumed
                || tap.last_stack_line_hit != Some(hits));
            let follows = tap.focus_follows_mouse_config_enabled && tap.focus_follows_mouse_enabled
                && !after.disable_hotkey_active;
            let known = tap.mouse_window.valid && !resumed;
            let claims = 0 < event.window_field <= u32::MAX;
            let claimed = if claims {
                Some(WindowServerId { raw: event.window_field as u32 })
            } else {
                None
            };
            let window = if known && claims && tap.mouse_window.hint == claimed {
                tap.mouse_window.resolved
            } else {
                facts.window
            };
            let stack_line = if told {
                seq![
                    TapEffect::StackLineMouseMoved {
                        point: event.location,
                        hits_indicator: hits,
                    },
                ]
            } else {
                Seq::empty()
            };
            let focus = match window {
                Some(entered) if follows && !(known && tap.mouse_window.resolved == window) => seq![
                    TapEffect::NoteActivity(entered),
                    TapEffect::MouseMoved(entered),
                ],
                _ => Seq::empty(),
            };
            &&& handled.deliver
            &&& handled.effects == showing(tap.hide_count) + stack_line + focus
            &&& after.hide_count == 0 && after.modifier_drag == tap.modifier_drag
            &&& told ==> after.last_stack_line_hit == Some(hits)
            &&& !told ==> after.last_stack_line_hit == (if resumed {
                None
            } else {
                tap.last_stack_line_hit
            })
            &&& follows ==> after.mouse_window.valid && after.mouse_window.hint == claimed
                && after.mouse_window.resolved == window
            &&& !follows && !resumed ==> after.mouse_window == tap.mouse_window
            &&& after.mouse_move_last_timestamp == (if resumed {
                None
            } else {
                tap.mouse_move_last_timestamp
            })
        }),
{
}

/// A mouse move that is not processed does nothing.
pub proof fn law_unprocessed_move_does_nothing(
    tap: TapView,
    event: TapEvent,
    active: Modifiers,
    facts: PointerFacts,
)
    requires
        event.kind is MouseMoved,
        !tap.event_processing_enabled,
    ensures
        tap.handled(event, active, facts).tap == tap,
        tap.handled(event, active, facts).deliver,
        tap.handled(event, active, facts).effects.len() == 0,
{
}

/// A key that is pressed with exactly the modifiers of a bound hotkey runs the
/// commands bound to it, in their order and only the first time, and is kept
/// from the application. Every other keyboard event goes on and runs nothing.
pub proof fn law_keys_run_their_commands(
    tap: TapView,
    event: TapEvent,
    active: Modifiers,
    facts: PointerFacts,
    key: KeyCode,
)
    requires
        is_key_event(event.kind),
        event.key == Some(key),
    ensures
        ({
            let handled = tap.handled(event, active, facts);
            let hotkey = Hotkey { modifiers: active, key_code: key };
            let hit = event.kind is KeyDown && !event.synthetic && tap.hotkeys.dom().contains(
                hotkey,
            );
            &&& handled.deliver <==> !hit
            &&& !hit || event.repeat ==> handled.effects.len() == 0
            &&& hit && !event.repeat ==> {
                &&& handled.effects.len() == tap.hotkeys[hotkey].len()
                &&& forall|i: int|
                    0 <= i < handled.effects.len() ==> #[trigger] handled.effects[i]
                        == TapEffect::Command(tap.hotkeys[hotkey][i])
            }
        }),
{
}

/// Which hotkeys are bound and to what: a hotkey is bound exactly when some
/// specification stands for it, and runs the commands of all that do, each once,
/// a command of an earlier one before a command that only later ones have.
pub proof fn law_specifications_bind_hotkeys(
    specs: Seq<(String, WmCommand)>,
    resolutions: Seq<Resolution>,
    hotkey: Hotkey,
    i: int,
)
    requires
        specs.len() == resolutions.len(),
        0 <= i < specs.len(),
        resolutions[i] matches Some(hotkeys) && hotkeys@.contains(hotkey),
    ensures
        ({
            let bound = bindings(resolutions, spec_commands(specs));
            &&& bound.dom().contains(hotkey)
            &&& bound[hotkey].contains(specs[i].1)
            &&& bound[hotkey].no_duplicates()
        }),
{
    let commands = spec_commands(specs);
    law_hotkey_runs_its_commands_once(resolutions, commands, hotkey);
    assert(stands_for(resolutions[i], hotkey));
    assert(commands[i] == specs[i].1);
    assert(commands_for(resolutions, commands, hotkey).contains(specs[i].1));
}

/// A hotkey that no specification stands for is not bound, and one runs no
/// command but those of the specifications that stand for it.
pub proof fn law_nothing_else_is_bound(
    specs: Seq<(String, WmCommand)>,
    resolutions: Seq<Resolution>,
    hotkey: Hotkey,
    command: WmCommand,
)
    requires
        specs.len() == resolutions.len(),
        forall|i: int|
            #![trigger resolutions[i]]
            0 <= i < specs.len() && (resolutions[i] matches Some(hotkeys) && hotkeys@.contains(
                hotkey,
            )) ==> specs[i].1 != command,
    ensures
        ({
            let bound = bindings(resolutions, spec_commands(specs));
            &&& bound.dom().contains(hotkey) ==> !bound[hotkey].contains(command)
            &&& bound.dom().contains(hotkey) <==> exists|i: int|
                #![trigger resolutions[i]]
                0 <= i < specs.len() && (resolutions[i] matches Some(hotkeys) && hotkeys@.contains(
                    hotkey,
                ))
        }),
{
    let commands = spec_commands(specs);
    let list = commands_for(resolutions, commands, hotkey);
    law_hotkey_runs_its_commands_once(resolutions, commands, hotkey);
    if list.contains(command) {
        let i = choose|i: int|
            0 <= i < resolutions.len() && stands_for(resolutions[i], hotkey) && commands[i]
                == command;
        assert(specs[i].1 == command);
    }
    if list.len() > 0 {
        assert(list.contains(list[0]));
        let i = choose|i: int|
            0 <= i < resolutions.len() && stands_for(resolutions[i], hotkey) && commands[i]
                == list[0];
        assert(resolutions[i] matches Some(hotkeys) && hotkeys@.contains(hotkey));
    }
    if exists|i: int|
        #![trigger resolutions[i]]
        0 <= i < specs.len() && (resolutions[i] matches Some(hotkeys) && hotkeys@.contains(
            hotkey,
        )) {
        let i = choose|i: int|
            #![trigger resolutions[i]]
            0 <= i < specs.len() && (resolutions[i] matches Some(hotkeys) && hotkeys@.contains(
                hotkey,
            ));
        assert(stands_for(resolutions[i], hotkey));
        assert(list.contains(commands[i]));
    }
}

/// A further specification adds its command at the end of the hotkeys it stands
/// for, and leaves the others as they are.
pub proof fn law_later_specifications_come_later(
    specs: Seq<(String, WmCommand)>,
    resolutions: Seq<Resolution>,
    hotkey: Hotkey,
    spec: (String, WmCommand),
    resolution: Resolution,
)
    requires
        specs.len() == resolutions.len(),
        bindings(resolutions, spec_commands(specs)).dom().contains(hotkey),
    ensures
        ({
            let before = bindings(resolutions, spec_commands(specs))[hotkey];
            let after = bindings(
                resolutions.push(resolution),
                spec_commands(specs.push(spec)),
            )[hotkey];
            let stands = resolution matches Some(hotkeys) && hotkeys@.contains(hotkey);
            &&& stands && !before.contains(spec.1) ==> after == before.push(spec.1)
            &&& !stands || before.contains(spec.1) ==> after == before
        }),
{
    let longer = spec_commands(specs.push(spec));
    lemma_commands_prefix(resolutions, spec_commands(specs), longer, hotkey);
    assert(resolutions.push(resolution).drop_last() =~= resolutions);
    assert(longer[resolutions.len() as int] == spec.1);
}

proof fn lemma_commands_prefix(
    resolutions: Seq<Resolution>,
    commands: Seq<WmCommand>,
    longer: Seq<WmCommand>,
    hotkey: Hotkey,
)
    requires
        resolutions.len() <= commands.len(),
        commands.len() <= longer.len(),
        forall|i: int| 0 <= i < commands.len() ==> commands[i] == longer[i],
    ensures
        commands_for(resolutions, commands, hotkey) == commands_for(resolutions, longer, hotkey),
    decreases resolutions.len(),
{
    if resolutions.len() > 0 {
        lemma_commands_prefix(resolutions.drop_last(), commands, longer, hotkey);
    }
}

/// What a request does to the mouse. A warp moves it and forgets the window it
/// was over; it and a change of focus hide it where the settings say so and it
/// is not hidden. A hidden mouse is hidden once more where that is enforced.
pub proof fn law_requests_hide_the_mouse(tap: TapView, point: Point)
    requires
        tap.hide_count < u32::MAX,
    ensures
        ({
            let hides = tap.mouse_hides_on_focus && tap.hide_count == 0;
            let hiding = if hides {
                seq![TapEffect::HideMouse]
            } else {
                Seq::empty()
            };
            let warped = tap.after_request(Request::Warp(point));
            let focused = tap.after_request(Request::HideOnFocus);
            let enforced = tap.after_request(Request::EnforceHidden);
            &&& tap.request_effects(Request::Warp(point)) == seq![TapEffect::WarpMouse(point)]
                + hiding
            &&& tap.request_effects(Request::HideOnFocus) == hiding
            &&& same_settings(warped, tap) && same_keys(warped, tap)
            &&& warped.modifier_drag == tap.modifier_drag
            &&& warped.last_stack_line_hit == tap.last_stack_line_hit
            &&& warped.mouse_move_last_timestamp == tap.mouse_move_last_timestamp
            &&& !warped.mouse_window.valid && warped.mouse_window.hint is None
                && warped.mouse_window.resolved is None
            &&& same_settings(focused, tap) && same_keys(focused, tap) && same_moves(focused, tap)
            &&& focused.modifier_drag == tap.modifier_drag
            &&& warped.hide_count == focused.hide_count == (if hides {
                1
            } else {
                tap.hide_count
            })
            &&& same_settings(enforced, tap) && same_keys(enforced, tap)
                && same_moves(enforced, tap)
            &&& enforced.modifier_drag == tap.modifier_drag
            &&& tap.hide_count > 0 ==> enforced.hide_count == tap.hide_count + 1
                && tap.request_effects(Request::EnforceHidden) == seq![TapEffect::HideMouse]
            &&& tap.hide_count == 0 ==> enforced.hide_count == 0 && tap.request_effects(
                Request::EnforceHidden,
            ).len() == 0
        }),
{
    assert(seq![TapEffect::WarpMouse(point)] + seq![TapEffect::HideMouse] =~= seq![
        TapEffect::WarpMouse(point),
        TapEffect::HideMouse,
    ]);
    assert(seq![TapEffect::WarpMouse(point)] + Seq::empty() =~= seq![TapEffect::WarpMouse(point)]);
}

/// Turning processing or focus-follows-mouse on or off is noted; turning it on
/// forgets the mouse moves before.
pub proof fn law_requests_switch(tap: TapView, enabled: bool)
    ensures
        ({
            let processing = tap.after_request(Request::SetEventProcessing(enabled));
            let following = tap.after_request(Request::SetFocusFollowsMouseEnabled(enabled));
            &&& processing.event_processing_enabled == enabled
            &&& same_settings(
                TapView { event_processing_enabled: tap.event_processing_enabled, ..processing },
                tap,
            )
            &&& same_keys(processing, tap) && same_mouse(processing, tap)
            &&& enabled ==> no_moves(processing)
            &&& !enabled ==> same_moves(processing, tap)
            &&& following.focus_follows_mouse_enabled == enabled
            &&& same_settings(
                TapView {
                    focus_follows_mouse_enabled: tap.focus_follows_mouse_enabled,
                    ..following
                },
                tap,
            )
            &&& same_keys(following, tap) && same_mouse(following, tap)
            &&& enabled ==> no_moves(following)
            &&& !enabled ==> same_moves(following, tap)
            &&& tap.request_effects(Request::SetEventProcessing(enabled)).len() == 0
            &&& tap.request_effects(Request::SetFocusFollowsMouseEnabled(enabled)).len() == 0
        }),
{
}

/// Saving power halves the rate of mouse moves, from one in eight milliseconds
/// to one in sixteen. A change lets the next move through and has it tell the
/// stack line where it is.
pub proof fn law_low_power_slows_moves(tap: TapView, enabled: bool)
    ensures
        ({
            let after = tap.after_request(Request::SetLowPowerMode(enabled));
            &&& sampling_interval(false) == 8_000_000 && sampling_interval(true) == 16_000_000
            &&& tap.request_effects(Request::SetLowPowerMode(enabled)).len() == 0
            &&& tap.low_power_mode == enabled ==> after == tap
            &&& tap.low_power_mode != enabled ==> {
                &&& after.low_power_mode == enabled
                &&& after.mouse_move_min_interval_ns == (if enabled {
                    16_000_000u64
                } else {
                    8_000_000u64
                })
                &&& same_settings(
                    TapView {
                        low_power_mode: tap.low_power_mode,
                        mouse_move_min_interval_ns: tap.mouse_move_min_interval_ns,
                        ..after
                    },
                    tap,
                )
                &&& same_keys(after, tap) && same_mouse(after, tap)
                &&& after.last_stack_line_hit is None && after.mouse_move_last_timestamp is None
                &&& after.mouse_window == tap.mouse_window
            }
        }),
{
}

/// A mouse move comes too soon when less than the interval lies between it and
/// the last one; one that is older than the last lies at no distance from it.
pub proof fn law_moves_are_spaced(tap: TapView, timestamp: u64)
    ensures
        tap.mouse_move_last_timestamp is None ==> !tap.too_soon(timestamp),
        tap.mouse_move_last_timestamp matches Some(last) ==> {
            &&& timestamp >= last ==> (tap.too_soon(timestamp) <==> timestamp
                < last + tap.mouse_move_min_interval_ns)
            &&& timestamp < last ==> (tap.too_soon(timestamp) <==> tap.mouse_move_min_interval_ns
                > 0)
        },
{
}

/// Other settings replace the ones before. The hotkey that suspends
/// focus-follows-mouse is held or not as the keys stand. Mouse moves are
/// forgotten where the suspension ends or where what they are for changes, and a
/// mouse that is no longer to be hidden is shown.
pub proof fn law_settings_replace_the_ones_before(
    tap: TapView,
    config: TapConfig,
    active: Modifiers,
)
    ensures
        ({
            let request = Request::ConfigUpdated(config, active);
            let after = tap.after_request(request);
            let revealed = tap.mouse_hides_on_focus && !config.mouse_hides_on_focus;
            let fresh = (tap.disable_hotkey_active && !after.disable_hotkey_active)
                || tap.focus_follows_mouse_config_enabled != config.focus_follows_mouse
                || tap.stack_line_enabled != config.stack_line_enabled || tap.stack_line_hover_mode
                != config.stack_line_hover;
            &&& after.mouse_hides_on_focus == config.mouse_hides_on_focus
            &&& after.mouse_modifier == config.mouse_modifier
            &&& after.focus_follows_mouse_config_enabled == config.focus_follows_mouse
            &&& after.disable_hotkey == config.focus_follows_mouse_disable_hotkey
            &&& after.stack_line_enabled == config.stack_line_enabled
            &&& after.stack_line_hover_mode == config.stack_line_hover
            &&& after.default_layout_mode == config.layout_mode
            &&& after.disable_hotkey_active == match config.focus_follows_mouse_disable_hotkey {
                Some(hotkey) => all_held(active, hotkey.modifiers) && down(
                    tap.current_flags,
                    tap.pressed_keys,
                    hotkey.key_code,
                ),
                None => false,
            }
            &&& after.pressed_keys == tap.pressed_keys && after.current_flags == tap.current_flags
            &&& after.modifier_drag == tap.modifier_drag
            &&& after.converter == tap.converter && after.screens == tap.screens
            &&& after.screen_spaces == tap.screen_spaces
            &&& after.layout_mode_by_space == tap.layout_mode_by_space
            &&& after.event_processing_enabled == tap.event_processing_enabled
            &&& after.focus_follows_mouse_enabled == tap.focus_follows_mouse_enabled
            &&& after.low_power_mode == tap.low_power_mode
            &&& after.mouse_move_min_interval_ns == tap.mouse_move_min_interval_ns
            &&& after.event_mask == tap.event_mask && after.tap_generation == tap.tap_generation
            &&& after.hotkey_specs == tap.hotkey_specs && after.hotkeys == tap.hotkeys
            &&& fresh ==> no_moves(after)
            &&& !fresh ==> same_moves(after, tap)
            &&& revealed ==> after.hide_count == 0 && tap.request_effects(request) == showing(
                tap.hide_count,
            )
            &&& !revealed ==> after.hide_count == tap.hide_count && tap.request_effects(
                request,
            ).len() == 0
        }),
{
}

/// What the other requests note: hotkeys as specified, hotkeys under another
/// keyboard layout, screens and the layout modes of spaces.
pub proof fn law_requests_are_noted(
    tap: TapView,
    specs: Vec<(String, WmCommand)>,
    resolutions: Vec<Resolution>,
    screens: Vec<ScreenState>,
    converter: CoordinateConverter,
    modes: Vec<(SpaceId, LayoutMode)>,
)
    ensures
        ({
            let bound = tap.after_request(Request::SetHotkeys(specs, resolutions));
            let rebound = tap.after_request(Request::KeyboardLayoutChanged(resolutions));
            let shown = tap.after_request(Request::SpaceStateUpdated(screens, converter));
            let laid = tap.after_request(Request::LayoutModesChanged(modes));
            &&& bound.hotkey_specs == specs@
            &&& bound.hotkeys == bindings(resolutions@, spec_commands(specs@))
            &&& bound == (TapView {
                hotkey_specs: bound.hotkey_specs,
                hotkeys: bound.hotkeys,
                ..tap
            })
            &&& rebound.hotkeys == bindings(resolutions@, spec_commands(tap.hotkey_specs))
            &&& rebound == (TapView { hotkeys: rebound.hotkeys, ..tap })
            &&& shown.converter == converter && shown.screens.len() == screens@.len()
            &&& forall|i: int|
                0 <= i < screens@.len() ==> #[trigger] shown.screens[i] == screens@[i].frame
            &&& shown.screen_spaces == shown_spaces(screens@)
            &&& shown == (TapView {
                converter: shown.converter,
                screens: shown.screens,
                screen_spaces: shown.screen_spaces,
                ..tap
            })
            &&& laid.layout_mode_by_space == modes_of(modes@)
            &&& laid == (TapView { layout_mode_by_space: laid.layout_mode_by_space, ..tap })
            &&& tap.request_effects(Request::SetHotkeys(specs, resolutions)).len() == 0
            &&& tap.request_effects(Request::KeyboardLayoutChanged(resolutions)).len() == 0
            &&& tap.request_effects(Request::SpaceStateUpdated(screens, converter)).len() == 0
            &&& tap.request_effects(Request::LayoutModesChanged(modes)).len() == 0
        }),
{
}

/// The spaces that are shown: exactly those of the screens that show one, with
/// the frame of their screen, in the order of the screens.
pub proof fn law_screens_show_their_spaces(screens: Seq<ScreenState>)
    ensures
        forall|frame: Rect, space: SpaceId| #[trigger]
            shown_spaces(screens).contains((frame, space)) <==> exists|i: int|
                0 <= i < screens.len() && #[trigger] screens[i] == (ScreenState {
                    frame,
                    space: Some(space),
                }),
        forall|i: int|
            #![trigger shown_spaces(screens.take(i))]
            0 <= i < screens.len() ==> shown_spaces(screens.take(i + 1)) == match screens[i].space {
                Some(space) => shown_spaces(screens.take(i)).push((screens[i].frame, space)),
                None => shown_spaces(screens.take(i)),
            },
        shown_spaces(Seq::empty()).len() == 0,
    decreases screens.len(),
{
    assert forall|i: int|
        #![trigger shown_spaces(screens.take(i))]
        0 <= i < screens.len() implies shown_spaces(screens.take(i + 1)) == match screens[i].space {
        Some(space) => shown_spaces(screens.take(i)).push((screens[i].frame, space)),
        None => shown_spaces(screens.take(i)),
    } by {
        assert(screens.take(i + 1).drop_last() =~= screens.take(i));
    }
    if screens.len() > 0 {
        let rest = screens.drop_last();
        let last = screens.last();
        law_screens_show_their_spaces(rest);
        assert forall|frame: Rect, space: SpaceId| #[trigger]
            shown_spaces(screens).contains((frame, space)) <==> exists|i: int|
                0 <= i < screens.len() && #[trigger] screens[i] == (ScreenState {
                    frame,
                    space: Some(space),
                }) by {
            let wanted = ScreenState { frame, space: Some(space) };
            let before = shown_spaces(rest);
            let after = shown_spaces(screens);
            if after.contains((frame, space)) {
                let k = choose|k: int| 0 <= k < after.len() && after[k] == (frame, space);
                if k < before.len() {
                    assert(before[k] == (frame, space));
                    assert(before.contains((frame, space)));
                    let i = choose|i: int| 0 <= i < rest.len() && #[trigger] rest[i] == wanted;
                    assert(screens[i] == wanted);
                } else {
                    assert(screens[screens.len() - 1] == wanted);
                }
            }
            if exists|i: int| 0 <= i < screens.len() && #[trigger] screens[i] == wanted {
                let i = choose|i: int| 0 <= i < screens.len() && #[trigger] screens[i] == wanted;
                if i < rest.len() {
                    assert(rest[i] == wanted);
                    assert(before.contains((frame, space)));
                    let k = choose|k: int| 0 <= k < before.len() && before[k] == (frame, space);
                    assert(after[k] == (frame, space));
                } else {
                    assert(after[before.len() as int] == (frame, space));
                }
            }
        }
    }
}

/// A space that is listed has the mode that is listed for it last.
pub proof fn law_last_listed_mode_counts(
    modes: Seq<(SpaceId, LayoutMode)>,
    space: SpaceId,
    i: int,
)
    requires
        0 <= i < modes.len(),
        modes[i].0 == space,
        forall|j: int| i < j < modes.len() ==> (#[trigger] modes[j]).0 != space,
    ensures
        modes_of(modes).dom().contains(space),
        modes_of(modes)[space] == modes[i].1,
    decreases modes.len(),
{
    if i < modes.len() - 1 {
        let rest = modes.drop_last();
        assert(modes[modes.len() - 1].0 != space);
        assert forall|j: int| i < j < rest.len() implies (#[trigger] rest[j]).0 != space by {
            assert(modes[j].0 != space);
        }
        law_last_listed_mode_counts(rest, space, i);
    }
}

/// A space that is not listed has no mode.
pub proof fn law_unlisted_space_has_no_mode(modes: Seq<(SpaceId, LayoutMode)>, space: SpaceId)
    requires
        forall|j: int| 0 <= j < modes.len() ==> (#[trigger] modes[j]).0 != space,
    ensures
        !modes_of(modes).dom().contains(space),
    decreases modes.len(),
{
    if modes.len() > 0 {
        let rest = modes.drop_last();
        assert(modes[modes.len() - 1].0 != space);
        assert forall|j: int| 0 <= j < rest.len() implies (#[trigger] rest[j]).0 != space by {
            assert(modes[j].0 != space);
        }
        law_unlisted_space_has_no_mode(rest, space);
    }
}

/// The mask asks for the button events always, for mouse moves where the stack
/// line or focus needs them and processing is on, and for keyboard events where
/// any hotkey is bound or suspends focus-follows-mouse. A new tap is needed
/// exactly when the mask is another one, and only requests that bear on it are
/// answered with one.
pub proof fn law_mask_follows_the_need(tap: TapView)
    ensures
        ({
            let keys = tap.disable_hotkey is Some || exists|hotkey: Hotkey|
                tap.hotkeys.dom().contains(hotkey);
            let moves = tap.event_processing_enabled && (tap.stack_line_enabled || (
            tap.focus_follows_mouse_config_enabled && tap.focus_follows_mouse_enabled));
            &&& tap.desired_mask() == (if keys && moves {
                0x1cfeu64
            } else if keys {
                0x1cdeu64
            } else if moves {
                0xfeu64
            } else {
                0xdeu64
            })
            &&& tap.mask_change() is None <==> tap.event_mask == tap.desired_mask()
            &&& tap.mask_change() matches Some(mask) ==> mask == tap.desired_mask()
        }),
{
    lemma_masks();
    if tap.hotkeys != Map::<Hotkey, Seq<WmCommand>>::empty() {
        if forall|hotkey: Hotkey| !tap.hotkeys.dom().contains(hotkey) {
            assert(tap.hotkeys =~= Map::<Hotkey, Seq<WmCommand>>::empty());
        }
    }
}

proof fn lemma_masks()
    ensures
        event_mask_of(false, false) == 0xde,
        event_mask_of(false, true) == 0xfe,
        event_mask_of(true, false) == 0x1cde,
        event_mask_of(true, true) == 0x1cfe,
{
    assert(0xdeu64 | 0u64 | 0u64 == 0xdeu64) by (bit_vector);
    assert(0xdeu64 | 0x20u64 | 0u64 == 0xfeu64) by (bit_vector);
    assert(0xdeu64 | 0u64 | 0x1c00u64 == 0x1cdeu64) by (bit_vector);
    assert(0xdeu64 | 0x20u64 | 0x1c00u64 == 0x1cfeu64) by (bit_vector);
}

/// Every tap has the next number, and the first one again after the last; it has
/// the mask it was made with. Nothing else of it changes.
pub proof fn law_taps_are_numbered(tap: TapView, mask: u64)
    ensures
        tap.tap_generation < u64::MAX ==> tap.next_generation() == tap.tap_generation + 1,
        tap.tap_generation == u64::MAX ==> tap.next_generation() == 0,
        tap.recreated(mask).event_mask == mask,
        tap.recreated(mask).tap_generation == tap.next_generation(),
        tap.recreated(mask) == (TapView {
            event_mask: mask,
            tap_generation: tap.recreated(mask).tap_generation,
            ..tap
        }),
{
}

/// A mouse move that is let through is the one that the next is measured by; one
/// that comes too soon leaves everything as it is.
pub proof fn law_moves_are_sampled(tap: TapView, timestamp: u64)
    ensures
        ({
            let soon = tap.mouse_move_last_timestamp matches Some(last) && timestamp - last
                < tap.mouse_move_min_interval_ns && (timestamp >= last
                || tap.mouse_move_min_interval_ns > 0);
            &&& soon ==> tap.sampled(timestamp) == tap
            &&& !soon ==> tap.sampled(timestamp) == (TapView {
                mouse_move_last_timestamp: Some(timestamp),
                ..tap
            })
        }),
{
}

/// A request is answered with a new mask exactly when it bears on the mask and
/// the events that are then needed are other ones.
pub proof fn law_requests_ask_for_a_new_tap(tap: TapView, request: Request)
    ensures
        ({
            let after = tap.after_request(request);
            let bears = match request {
                Request::Warp(_) | Request::HideOnFocus | Request::EnforceHidden => false,
                Request::SpaceStateUpdated(..) | Request::LayoutModesChanged(_) => false,
                Request::SetLowPowerMode(_) => false,
                _ => true,
            };
            if bears && after.desired_mask() != after.event_mask {
                tap.rebuild_for(request) == Some(after.desired_mask())
            } else {
                tap.rebuild_for(request) is None
            }
        }),
{
}

/// Which requests bear on the mask.
pub proof fn law_requests_that_bear_on_the_mask(request: Request)
    ensures
        TapView::affects_mask(request) <==> match request {
            Request::Warp(_) | Request::HideOnFocus | Request::EnforceHidden => false,
            Request::SpaceStateUpdated(..) | Request::LayoutModesChanged(_) => false,
            Request::SetLowPowerMode(_) => false,
            _ => true,
        },
{
}

/// A tap starts with its settings, with processing off and focus-follows-mouse
/// not switched off, and with nothing known of mouse, keys, screens and hotkeys.
pub proof fn law_tap_starts_blank(
    config: TapConfig,
    low_power_mode: bool,
    active: Modifiers,
    converter: CoordinateConverter,
)
    ensures
        ({
            let tap = initial_tap(config, low_power_mode, active, converter);
            &&& tap.hide_count == 0 && tap.modifier_drag is None
            &&& tap.mouse_hides_on_focus == config.mouse_hides_on_focus
            &&& tap.mouse_modifier == config.mouse_modifier
            &&& tap.focus_follows_mouse_config_enabled == config.focus_follows_mouse
            &&& tap.disable_hotkey == config.focus_follows_mouse_disable_hotkey
            &&& tap.stack_line_enabled == config.stack_line_enabled
            &&& tap.stack_line_hover_mode == config.stack_line_hover
            &&& tap.default_layout_mode == config.layout_mode
            &&& tap.low_power_mode == low_power_mode
            &&& tap.mouse_move_min_interval_ns == (if low_power_mode {
                16_000_000u64
            } else {
                8_000_000u64
            })
            &&& !tap.event_processing_enabled && tap.focus_follows_mouse_enabled
            &&& tap.disable_hotkey_active == match config.focus_follows_mouse_disable_hotkey {
                Some(hotkey) => all_held(active, hotkey.modifiers) && down(
                    tap.current_flags,
                    tap.pressed_keys,
                    hotkey.key_code,
                ),
                None => false,
            }
            &&& tap.converter == converter && tap.screens.len() == 0
            &&& tap.screen_spaces.len() == 0
            &&& forall|space: SpaceId| !tap.layout_mode_by_space.dom().contains(space)
            &&& forall|key: KeyCode| !tap.pressed_keys.contains(key)
            &&& tap.current_flags.bits == 0
            &&& no_moves(tap)
            &&& tap.tap_generation == 0 && tap.hotkey_specs.len() == 0
            &&& forall|hotkey: Hotkey| !tap.hotkeys.dom().contains(hotkey)
            &&& tap.event_mask == (if config.focus_follows_mouse_disable_hotkey is Some {
                0x1cdeu64
            } else {
                0xdeu64
            })
        }),
{
    lemma_masks();
}

/// After the tap was interrupted the flags are those that the system reports,
/// no key counts as pressed, and the suspension is as these say; its end forgets
/// the mouse moves.
pub proof fn law_interruption_forgets_keys(tap: TapView, flags: EventFlags, active: Modifiers)
    ensures
        ({
            let after = tap.recovered(flags).refreshed(active);
            &&& after.current_flags == flags
            &&& forall|key: KeyCode| !after.pressed_keys.contains(key)
            &&& same_settings(after, tap) && same_mouse(after, tap)
            &&& after.disable_hotkey_active == match tap.disable_hotkey {
                Some(hotkey) => all_held(active, hotkey.modifiers) && hotkey.key_code.side_mask != 0
                    && flags.bits & hotkey.key_code.side_mask != 0,
                None => tap.disable_hotkey_active,
            }
            &&& tap.disable_hotkey_active && !after.disable_hotkey_active ==> no_moves(after)
            &&& !tap.disable_hotkey_active || after.disable_hotkey_active ==> same_moves(
                after,
                tap,
            )
        }),
{
}

/// The window at the pointer is looked up for a press exactly where it can begin
/// a drag, and for a move exactly where focus follows it and the event does not
/// claim the window that is known.
pub proof fn law_lookups_are_made_where_they_count(
    tap: TapView,
    event: TapEvent,
    active: Modifiers,
    facts: PointerFacts,
)
    ensures
        ({
            let suspended = tap.handled(event, active, facts).tap.disable_hotkey_active;
            let looks = tap.looks_up_window(event, active);
            let claims = 0 < event.window_field <= u32::MAX && tap.mouse_window.hint == Some(
                WindowServerId { raw: event.window_field as u32 },
            );
            &&& is_press(event.kind) ==> (looks <==> tap.event_processing_enabled && (
            tap.mouse_modifier matches Some(wanted) && all_held(active, wanted)))
            &&& event.kind is MouseMoved ==> (looks <==> tap.event_processing_enabled
                && tap.focus_follows_mouse_config_enabled && tap.focus_follows_mouse_enabled
                && !suspended && (tap.disable_hotkey_active || !tap.mouse_window.valid || !claims))
            &&& !is_press(event.kind) && !(event.kind is MouseMoved) ==> !looks
        }),
{
}

} // verus!
