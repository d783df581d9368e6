//! What holds of input processing, whatever events and requests come.

use crate::event_tap::{
    event_code, event_mask_of, initial_tap, window_hint, EventType, Handled, MouseWindow,
    PointerFacts, Request, TapEffect, TapEvent, TapView,
};
use crate::keys::{EventFlags, Hotkey, KeyCode, Modifiers};
use crate::settings::{CoordinateConverter, StackLineHoverMode, TapConfig};
use vstd::prelude::*;

verus! {

/// An event type that something handles under the given conditions.
pub open spec fn wanted(kind: EventType, keyboard_enabled: bool, mouse_move_enabled: bool) -> bool {
    if kind == EventType::MouseMoved {
        mouse_move_enabled
    } else if kind.keyboard() {
        keyboard_enabled
    } else {
        kind != EventType::Other
    }
}

/// The mask has the bit of an event type exactly when something handles it,
/// and no bit that belongs to none.
pub proof fn law_mask_holds_exactly_the_wanted_events(
    keyboard_enabled: bool,
    mouse_move_enabled: bool,
    code: u64,
)
    requires
        code < 64,
    ensures
        (event_mask_of(keyboard_enabled, mouse_move_enabled) >> code) & 1 == 1 <==> exists|
            kind: EventType,
        |
            event_code(kind) == Some(code) && #[trigger] wanted(
                kind,
                keyboard_enabled,
                mouse_move_enabled,
            ),
{
    let mask = event_mask_of(keyboard_enabled, mouse_move_enabled);
    let moves: u64 = if mouse_move_enabled { 0x20 } else { 0 };
    let keyboard: u64 = if keyboard_enabled { 0x1c00 } else { 0 };
    assert(mask == 0xdeu64 | moves | keyboard);
    assert(((0xdeu64 | moves | keyboard) >> code) & 1 == 1 <==> (code == 1 || code == 2 || code == 3
        || code == 4 || code == 6 || code == 7 || (code == 5 && moves == 0x20) || ((code == 10
        || code == 11 || code == 12) && keyboard == 0x1c00))) by (bit_vector)
        requires
            code < 64,
            moves == 0x20 || moves == 0,
            keyboard == 0x1c00 || keyboard == 0,
    ;
    let kinds: Seq<EventType> = seq![
        EventType::LeftMouseDown,
        EventType::LeftMouseUp,
        EventType::RightMouseDown,
        EventType::RightMouseUp,
        EventType::MouseMoved,
        EventType::LeftMouseDragged,
        EventType::RightMouseDragged,
        EventType::KeyDown,
        EventType::KeyUp,
        EventType::FlagsChanged,
    ];
    assert forall|i: int|
        0 <= i < 10 && event_code(#[trigger] kinds[i]) == Some(code) implies (wanted(
        kinds[i],
        keyboard_enabled,
        mouse_move_enabled,
    ) <==> (mask >> code) & 1 == 1) by {}
    if (mask >> code) & 1 == 1 {
        let i: int = if code <= 7 { code - 1 } else { code - 3 };
        assert(event_code(kinds[i]) == Some(code));
    }
}

/// The tap at the start has the mask that it needs.
pub proof fn law_initial_mask_is_the_needed_one(
    config: TapConfig,
    low_power_mode: bool,
    active: Modifiers,
    converter: CoordinateConverter,
)
    ensures
        initial_tap(config, low_power_mode, active, converter).mask_change() is None,
{
}

/// A keyboard event that the window manager itself has sent reaches the
/// application and changes nothing.
pub proof fn law_own_shortcuts_pass(
    tap: TapView,
    event: TapEvent,
    active: Modifiers,
    facts: PointerFacts,
)
    requires
        event.kind.keyboard(),
        event.synthetic,
    ensures
        tap.handled(event, active, facts) == (Handled {
            tap,
            deliver: true,
            effects: Seq::empty(),
        }),
{
}

/// A bound hotkey never reaches the application: its press runs its commands,
/// each repetition of it runs nothing.
pub proof fn law_hotkeys_are_press_triggered(
    tap: TapView,
    event: TapEvent,
    active: Modifiers,
    facts: PointerFacts,
    key: KeyCode,
)
    requires
        event.kind == EventType::KeyDown,
        !event.synthetic,
        event.key == Some(key),
        tap.hotkeys.dom().contains(Hotkey { modifiers: active, key_code: key }),
    ensures
        !tap.handled(event, active, facts).deliver,
        event.repeat ==> tap.handled(event, active, facts).effects.len() == 0,
        !event.repeat ==> {
            let commands = tap.hotkeys[Hotkey { modifiers: active, key_code: key }];
            &&& tap.handled(event, active, facts).effects.len() == commands.len()
            &&& forall|i: int|
                0 <= i < commands.len() ==> #[trigger] tap.handled(
                    event,
                    active,
                    facts,
                ).effects[i] == TapEffect::Command(commands[i])
        },
{
    let informed = tap.informed(event, active);
    assert(informed.hotkeys == tap.hotkeys);
}

/// A keyboard event that no hotkey is bound to reaches the application.
pub proof fn law_unbound_keys_pass(
    tap: TapView,
    event: TapEvent,
    active: Modifiers,
    facts: PointerFacts,
)
    requires
        event.kind.keyboard(),
        event.kind == EventType::KeyDown && event.key is Some ==> !tap.hotkeys.dom().contains(
            Hotkey { modifiers: active, key_code: event.key->0 },
        ),
    ensures
        tap.handled(event, active, facts).deliver,
        tap.handled(event, active, facts).effects.len() == 0,
{
}

/// While processing is off, a mouse move changes nothing, and no button event
/// shows the mouse, begins or ends a drag, or reaches the reactor.
pub proof fn law_processing_off_is_quiet(
    tap: TapView,
    event: TapEvent,
    active: Modifiers,
    facts: PointerFacts,
)
    requires
        !tap.event_processing_enabled,
        !event.kind.keyboard(),
    ensures
        tap.handled(event, active, facts).tap.hide_count == tap.hide_count,
        tap.handled(event, active, facts).tap.modifier_drag == tap.modifier_drag,
        forall|i: int|
            0 <= i < tap.handled(event, active, facts).effects.len() ==> {
                let effect = #[trigger] tap.handled(event, active, facts).effects[i];
                effect is SetMouseState || effect is StackLineMouseDown
            },
        event.kind == EventType::MouseMoved ==> tap.handled(event, active, facts) == (Handled {
            tap,
            deliver: true,
            effects: Seq::empty(),
        }),
{
}

/// From the press that begins a drag with the modifier held to the release
/// that ends it, the application sees no button event.
pub proof fn law_modifier_drag_is_hidden_from_the_application(
    tap: TapView,
    event: TapEvent,
    active: Modifiers,
    facts: PointerFacts,
)
    requires
        tap.event_processing_enabled,
    ensures
        event.kind.press() && tap.handled(event, active, facts).tap.modifier_drag
            != tap.modifier_drag ==> {
            &&& !tap.handled(event, active, facts).deliver
            &&& tap.handled(event, active, facts).tap.modifier_drag is Some
        },
        event.kind.dragged() && tap.modifier_drag is Some ==> {
            &&& !tap.handled(event, active, facts).deliver
            &&& tap.handled(event, active, facts).tap.modifier_drag is Some
        },
        event.kind.release() && tap.modifier_drag is Some ==> {
            &&& !tap.handled(event, active, facts).deliver
            &&& tap.handled(event, active, facts).tap.modifier_drag is None
        },
{
}

/// Every processed release ends with word to the reactor, and motion that a
/// drag has held back comes before it.
pub proof fn law_release_lands_after_pending_motion(
    tap: TapView,
    event: TapEvent,
    active: Modifiers,
    facts: PointerFacts,
)
    requires
        tap.event_processing_enabled,
        event.kind.release(),
    ensures
        tap.handled(event, active, facts).effects.len() > 0,
        tap.handled(event, active, facts).effects.last() == TapEffect::MouseUp,
        tap.modifier_drag matches Some(drag) ==> (!drag.pending.at_zero() ==> {
            let effects = tap.handled(event, active, facts).effects;
            &&& effects.len() > 1
            &&& effects[effects.len() - 2] == (TapEffect::ModifierDrag {
                window: drag.window,
                action: drag.action,
                delta: drag.pending,
            })
        }),
{
}

/// A processed pointer event shows a hidden mouse as often as it was hidden.
pub proof fn law_hides_are_undone(
    tap: TapView,
    event: TapEvent,
    active: Modifiers,
    facts: PointerFacts,
)
    requires
        tap.event_processing_enabled,
        !event.kind.keyboard(),
        !(event.kind.press() && facts.over_indicator && !facts.occluded),
    ensures
        tap.handled(event, active, facts).tap.hide_count == 0,
        tap.hide_count > 0 ==> tap.handled(event, active, facts).effects.contains(
            TapEffect::ShowMouse { times: tap.hide_count },
        ),
{
    let informed = tap.informed(event, active);
    let show = TapEffect::ShowMouse { times: tap.hide_count };
    let effects = tap.handled(event, active, facts).effects;
    if tap.hide_count > 0 {
        if event.kind == EventType::MouseMoved {
            assert(effects[0] == show);
        } else {
            assert(effects[event.kind.mouse_state().len() as int] == show);
        }
    }
}

/// A request that hides the mouse hides it once and counts that; no other
/// request but a change of settings changes the count.
pub proof fn law_hides_are_counted(tap: TapView, request: Request)
    requires
        tap.hide_count < u32::MAX,
    ensures
        tap.request_effects(request).contains(TapEffect::HideMouse) ==> tap.after_request(
            request,
        ).hide_count == tap.hide_count + 1,
        !tap.request_effects(request).contains(TapEffect::HideMouse) && !(
        request is ConfigUpdated) ==> tap.after_request(request).hide_count == tap.hide_count,
        request is ConfigUpdated ==> tap.after_request(request).hide_count == tap.hide_count
            || tap.after_request(request).hide_count == 0,
{
    let effects = tap.request_effects(request);
    if request is Warp && tap.hides_on_focus() {
        assert(effects[1] == TapEffect::HideMouse);
    } else if (request is HideOnFocus && tap.hides_on_focus()) || (request is EnforceHidden
        && tap.hide_count > 0) {
        assert(effects[0] == TapEffect::HideMouse);
    }
}

/// In click mode the stack line hears of a sample only where it changes
/// whether an indicator is hit; in hover mode it hears of every one.
pub proof fn law_stack_line_hears_what_it_needs(tap: TapView, hits: bool)
    requires
        tap.stack_line_enabled,
    ensures
        tap.stack_line_hover_mode == StackLineHoverMode::Hover ==> tap.tells_stack_line(hits),
        tap.stack_line_hover_mode == StackLineHoverMode::Click ==> (tap.tells_stack_line(hits)
            <==> tap.last_stack_line_hit != Some(hits)),
{
}

/// While its hotkey is held, focus-follows-mouse reports no window.
pub proof fn law_suspension_reports_no_window(
    tap: TapView,
    event: TapEvent,
    active: Modifiers,
    facts: PointerFacts,
)
    requires
        event.kind == EventType::MouseMoved,
        tap.informed(event, active).disable_hotkey_active,
    ensures
        forall|i: int|
            0 <= i < tap.handled(event, active, facts).effects.len() ==> !(
            #[trigger] tap.handled(event, active, facts).effects[i] is MouseMoved),
{
}

/// The reactor hears of transitions only: a second move that is found over
/// the same window reports nothing.
pub proof fn law_same_window_is_reported_once(
    tap: TapView,
    first: TapEvent,
    first_facts: PointerFacts,
    second: TapEvent,
    second_facts: PointerFacts,
)
    requires
        tap.event_processing_enabled,
        tap.focus_follows(),
        !tap.disable_hotkey_active,
        tap.moved(first, first_facts).tap.moved(second, second_facts).tap.mouse_window.resolved
            == tap.moved(first, first_facts).tap.mouse_window.resolved,
    ensures
        forall|i: int|
            0 <= i < tap.moved(first, first_facts).tap.moved(second, second_facts).effects.len()
                ==> !(#[trigger] tap.moved(first, first_facts).tap.moved(
                second,
                second_facts,
            ).effects[i] is MouseMoved),
{
}

/// While events claim to be over the same window, the window server need not
/// be asked: whatever it would say makes no difference.
pub proof fn law_stable_claim_needs_no_lookup(
    tap: TapView,
    event: TapEvent,
    facts: PointerFacts,
    other: PointerFacts,
)
    requires
        tap.mouse_window.valid,
        window_hint(event.window_field) is Some,
        tap.mouse_window.hint == window_hint(event.window_field),
        other == (PointerFacts { window: other.window, ..facts }),
    ensures
        tap.moved(event, facts) == tap.moved(event, other),
{
}

/// Where the window at an event's location need not be found, what would be
/// found there makes no difference.
pub proof fn law_unneeded_lookups_change_nothing(
    tap: TapView,
    event: TapEvent,
    active: Modifiers,
    facts: PointerFacts,
    other: PointerFacts,
)
    requires
        !tap.looks_up_window(event, active),
        other == (PointerFacts {
            window: other.window,
            window_center: other.window_center,
            ..facts
        }),
    ensures
        tap.handled(event, active, facts) == tap.handled(event, active, other),
{
}

/// Between two mouse moves that are processed at least the interval passes.
pub proof fn law_admitted_moves_keep_their_distance(tap: TapView, first: u64, second: u64)
    requires
        tap.mouse_move_min_interval_ns > 0,
        !(TapView { mouse_move_last_timestamp: Some(first), ..tap }).too_soon(second),
    ensures
        second - first >= tap.mouse_move_min_interval_ns,
{
}

/// After the tap was disabled no key counts as held and the flags are those
/// of the system, whatever was cached.
pub proof fn law_recovery_discards_cached_keys(tap: TapView, flags: EventFlags, active: Modifiers)
    ensures
        tap.recovered(flags).refreshed(active).pressed_keys == Set::<KeyCode>::empty(),
        tap.recovered(flags).refreshed(active).current_flags == flags,
{
}

/// Whatever ends the suspension of focus-follows-mouse, the next mouse move is
/// processed at once and finds its window anew.
pub proof fn law_resumption_starts_afresh(tap: TapView, active: Modifiers, config: TapConfig)
    requires
        tap.disable_hotkey_active,
    ensures
        !tap.refreshed(active).disable_hotkey_active ==> {
            &&& tap.refreshed(active).mouse_window == MouseWindow::spec_unknown()
            &&& forall|timestamp: u64| !#[trigger] tap.refreshed(active).too_soon(timestamp)
        },
        !tap.configured(config, active).disable_hotkey_active ==> {
            &&& tap.configured(config, active).mouse_window == MouseWindow::spec_unknown()
            &&& forall|timestamp: u64|
                !#[trigger] tap.configured(config, active).too_soon(timestamp)
        },
{
}

/// No event changes which commands the hotkeys run, nor any setting.
pub proof fn law_events_leave_settings_alone(
    tap: TapView,
    event: TapEvent,
    active: Modifiers,
    facts: PointerFacts,
)
    ensures
        ({
            let after = tap.handled(event, active, facts).tap;
            after == (TapView {
                hide_count: after.hide_count,
                modifier_drag: after.modifier_drag,
                pressed_keys: after.pressed_keys,
                current_flags: after.current_flags,
                disable_hotkey_active: after.disable_hotkey_active,
                last_stack_line_hit: after.last_stack_line_hit,
                mouse_move_last_timestamp: after.mouse_move_last_timestamp,
                mouse_window: after.mouse_window,
                ..tap
            })
        }),
{
}

} // verus!
