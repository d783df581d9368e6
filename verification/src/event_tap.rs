//! Input processing: what an input event or a request means, and what is to
//! be done about it.
//!
//! The tap itself, the window server and the other actors are not reached from
//! here. Events, requests and what the window server says come in as values;
//! what is to be done goes out as effects, in the order in which they are due.

use crate::geometry::{resize_sides, sides_toward, Point, Rect};
use crate::hotkeys::{bindings, spec_commands, HotkeyTable, Resolution, WmCommand};
use crate::ids::{SpaceId, WindowServerId};
use crate::keys::{reconciled, EventFlags, Hotkey, KeyCode, KeySet, Modifiers};
use crate::modifier_drag::{ModifierDrag, MouseDragAction};
use crate::settings::{CoordinateConverter, LayoutMode, MouseState, StackLineHoverMode, TapConfig};
use crate::shared_hotkeys::{held, SharedHotkeyTable};
use crate::table::Table;
use vstd::prelude::*;

verus! {

/// The least time between two processed mouse moves: 8 ms, about 125 Hz.
pub const MOUSE_MOVE_MIN_INTERVAL_NS_NORMAL: u64 = 8_000_000;

/// The same while power is to be saved: 16 ms, about 62 Hz.
pub const MOUSE_MOVE_MIN_INTERVAL_NS_LOW_POWER: u64 = 16_000_000;

/// The bits of the button events: presses, releases and drags, left and right.
pub const BUTTON_EVENTS: u64 = 0xde;

/// The bit of mouse moves.
pub const MOVE_EVENTS: u64 = 0x20;

/// The bits of the keyboard events.
pub const KEYBOARD_EVENTS: u64 = 0x1c00;

#[derive(Clone, Copy, Debug, PartialEq, Eq, Structural)]
pub enum EventType {
    LeftMouseDown,
    LeftMouseUp,
    RightMouseDown,
    RightMouseUp,
    MouseMoved,
    LeftMouseDragged,
    RightMouseDragged,
    KeyDown,
    KeyUp,
    FlagsChanged,
    Other,
}

/// An input event.
#[derive(Clone, Copy, Debug, PartialEq, Eq, Structural)]
pub struct TapEvent {
    pub kind: EventType,
    pub flags: EventFlags,
    pub location: Point,
    pub timestamp: u64,
    /// The key of a keyboard event.
    pub key: Option<KeyCode>,
    /// The key is held down and the event is one of its repetitions.
    pub repeat: bool,
    /// The window manager itself has sent the event to an application.
    pub synthetic: bool,
    /// The window that the event claims to be over; not positive where it
    /// claims none.
    pub window_field: i64,
}

/// What is known of the place of a pointer event.
#[derive(Clone, Copy, Debug, PartialEq, Eq, Structural)]
pub struct PointerFacts {
    /// The location lies on the indicator of a stack.
    pub over_indicator: bool,
    /// A window of another application covers the location.
    pub occluded: bool,
    /// The window at the location.
    pub window: Option<WindowServerId>,
    /// The center of that window's frame.
    pub window_center: Option<Point>,
    /// The motion that the drag in progress has not handed over, up to the
    /// location.
    pub drag_total: Point,
}

/// A screen and the space that it shows.
#[derive(Clone, Copy, Debug, PartialEq, Eq, Structural)]
pub struct ScreenState {
    pub frame: Rect,
    pub space: Option<SpaceId>,
}

/// A request to the event tap. Specifications of hotkeys come with what they
/// stand for under the current keyboard layout, settings with the modifiers
/// that are held.
#[derive(Debug)]
pub enum Request {
    Warp(Point),
    HideOnFocus,
    EnforceHidden,
    SpaceStateUpdated(Vec<ScreenState>, CoordinateConverter),
    SetEventProcessing(bool),
    SetFocusFollowsMouseEnabled(bool),
    SetHotkeys(Vec<(String, WmCommand)>, Vec<Resolution>),
    KeyboardLayoutChanged(Vec<Resolution>),
    ConfigUpdated(TapConfig, Modifiers),
    LayoutModesChanged(Vec<(SpaceId, LayoutMode)>),
    SetLowPowerMode(bool),
}

/// Something that is to be done outside.
#[derive(Clone, Copy, Debug, PartialEq, Eq, Structural)]
pub enum TapEffect {
    WarpMouse(Point),
    HideMouse,
    /// Show the mouse as many times as it was hidden.
    ShowMouse { times: u32 },
    SetMouseState(MouseState),
    /// Tell the stack line that its indicator was clicked.
    StackLineMouseDown(Point),
    /// Tell the stack line where the pointer is.
    StackLineMouseMoved { point: Point, hits_indicator: bool },
    /// Tell the reactor of motion in a drag with the modifier held.
    ModifierDrag { window: WindowServerId, action: MouseDragAction, delta: Point },
    /// Tell the reactor that a button was released.
    MouseUp,
    /// Note that the window server was active on behalf of a window.
    NoteActivity(WindowServerId),
    /// Tell the reactor which window the pointer has entered.
    MouseMoved(WindowServerId),
    /// Run a command.
    Command(WmCommand),
}

/// What is to be done about an event.
#[derive(Debug)]
pub struct EventReply {
    /// The event goes on to the application.
    pub deliver: bool,
    pub effects: Vec<TapEffect>,
}

/// What is to be done about a request.
#[derive(Debug)]
pub struct RequestReply {
    pub effects: Vec<TapEffect>,
    /// The mask that a new tap is needed for.
    pub rebuild: Option<u64>,
}

/// The keys that are held and the flags that report them.
#[derive(Debug)]
pub struct KeyState {
    pub flags: EventFlags,
    pub pressed: Vec<KeyCode>,
}

/// The window that the pointer was last found over.
#[derive(Clone, Copy, Debug, PartialEq, Eq, Structural)]
pub struct MouseWindow {
    /// The window that the event claimed to be over.
    pub hint: Option<WindowServerId>,
    /// The window that it was found over.
    pub resolved: Option<WindowServerId>,
    pub valid: bool,
}

#[derive(Debug)]
pub struct EventTap {
    hide_count: u32,
    mouse_hides_on_focus: bool,
    focus_follows_mouse_config_enabled: bool,
    default_layout_mode: LayoutMode,
    converter: CoordinateConverter,
    screens: Vec<Rect>,
    event_processing_enabled: bool,
    focus_follows_mouse_enabled: bool,
    stack_line_enabled: bool,
    stack_line_hover_mode: StackLineHoverMode,
    disable_hotkey_active: bool,
    mouse_modifier: Option<Modifiers>,
    modifier_drag: Option<ModifierDrag>,
    low_power_mode: bool,
    pressed_keys: KeySet,
    current_flags: EventFlags,
    screen_spaces: Vec<(Rect, SpaceId)>,
    layout_mode_by_space: Table<SpaceId, LayoutMode>,
    last_stack_line_hit: Option<bool>,
    event_mask: u64,
    mouse_move_last_timestamp: Option<u64>,
    mouse_move_min_interval_ns: u64,
    mouse_window: MouseWindow,
    tap_generation: u64,
    disable_hotkey: Option<Hotkey>,
    hotkey_specs: Vec<(String, WmCommand)>,
    hotkeys: SharedHotkeyTable,
}

/// An event tap as a value.
#[verifier::ext_equal]
pub struct TapView {
    pub hide_count: u32,
    pub mouse_hides_on_focus: bool,
    pub focus_follows_mouse_config_enabled: bool,
    pub default_layout_mode: LayoutMode,
    pub converter: CoordinateConverter,
    pub screens: Seq<Rect>,
    pub event_processing_enabled: bool,
    pub focus_follows_mouse_enabled: bool,
    pub stack_line_enabled: bool,
    pub stack_line_hover_mode: StackLineHoverMode,
    pub disable_hotkey_active: bool,
    pub mouse_modifier: Option<Modifiers>,
    pub modifier_drag: Option<ModifierDrag>,
    pub low_power_mode: bool,
    pub pressed_keys: Set<KeyCode>,
    pub current_flags: EventFlags,
    pub screen_spaces: Seq<(Rect, SpaceId)>,
    pub layout_mode_by_space: Map<SpaceId, LayoutMode>,
    pub last_stack_line_hit: Option<bool>,
    pub event_mask: u64,
    pub mouse_move_last_timestamp: Option<u64>,
    pub mouse_move_min_interval_ns: u64,
    pub mouse_window: MouseWindow,
    pub tap_generation: u64,
    pub disable_hotkey: Option<Hotkey>,
    pub hotkey_specs: Seq<(String, WmCommand)>,
    pub hotkeys: Map<Hotkey, Seq<WmCommand>>,
}

/// The tap after an event, and what is to be done about it.
#[verifier::ext_equal]
pub struct Handled {
    pub tap: TapView,
    pub deliver: bool,
    pub effects: Seq<TapEffect>,
}

impl View for EventTap {
    type V = TapView;

    closed spec fn view(&self) -> TapView {
        TapView {
            hide_count: self.hide_count,
            mouse_hides_on_focus: self.mouse_hides_on_focus,
            focus_follows_mouse_config_enabled: self.focus_follows_mouse_config_enabled,
            default_layout_mode: self.default_layout_mode,
            converter: self.converter,
            screens: self.screens@,
            event_processing_enabled: self.event_processing_enabled,
            focus_follows_mouse_enabled: self.focus_follows_mouse_enabled,
            stack_line_enabled: self.stack_line_enabled,
            stack_line_hover_mode: self.stack_line_hover_mode,
            disable_hotkey_active: self.disable_hotkey_active,
            mouse_modifier: self.mouse_modifier,
            modifier_drag: self.modifier_drag,
            low_power_mode: self.low_power_mode,
            pressed_keys: self.pressed_keys@,
            current_flags: self.current_flags,
            screen_spaces: self.screen_spaces@,
            layout_mode_by_space: self.layout_mode_by_space@,
            last_stack_line_hit: self.last_stack_line_hit,
            event_mask: self.event_mask,
            mouse_move_last_timestamp: self.mouse_move_last_timestamp,
            mouse_move_min_interval_ns: self.mouse_move_min_interval_ns,
            mouse_window: self.mouse_window,
            tap_generation: self.tap_generation,
            disable_hotkey: self.disable_hotkey,
            hotkey_specs: self.hotkey_specs@,
            hotkeys: held(self.hotkeys),
        }
    }
}

impl MouseWindow {
    pub open spec fn spec_unknown() -> MouseWindow {
        MouseWindow { hint: None, resolved: None, valid: false }
    }

    /// Nothing is known of the window under the pointer.
    #[verifier::when_used_as_spec(spec_unknown)]
    pub fn unknown() -> (r: MouseWindow)
        ensures
            r == MouseWindow::spec_unknown(),
    {
        MouseWindow { hint: None, resolved: None, valid: false }
    }
}

impl EventType {
    pub open spec fn keyboard(self) -> bool {
        self == EventType::KeyDown || self == EventType::KeyUp || self == EventType::FlagsChanged
    }

    pub open spec fn press(self) -> bool {
        self == EventType::LeftMouseDown || self == EventType::RightMouseDown
    }

    pub open spec fn dragged(self) -> bool {
        self == EventType::LeftMouseDragged || self == EventType::RightMouseDragged
    }

    pub open spec fn release(self) -> bool {
        self == EventType::LeftMouseUp || self == EventType::RightMouseUp
    }

    /// What the event says of the mouse button.
    pub open spec fn mouse_state(self) -> Seq<TapEffect> {
        if self.press() || self.dragged() {
            seq![TapEffect::SetMouseState(MouseState::Down)]
        } else if self.release() {
            seq![TapEffect::SetMouseState(MouseState::Up)]
        } else {
            Seq::empty()
        }
    }

    fn is_keyboard(self) -> (r: bool)
        ensures
            r == self.keyboard(),
    {
        match self {
            EventType::KeyDown | EventType::KeyUp | EventType::FlagsChanged => true,
            _ => false,
        }
    }
}

/// The time that has to pass between two processed mouse moves.
pub open spec fn sampling_interval(low_power_mode: bool) -> u64 {
    if low_power_mode {
        MOUSE_MOVE_MIN_INTERVAL_NS_LOW_POWER
    } else {
        MOUSE_MOVE_MIN_INTERVAL_NS_NORMAL
    }
}

/// The time that has to pass between two processed mouse moves.
pub fn mouse_move_sampling_profile(low_power_mode: bool) -> (r: u64)
    ensures
        r == sampling_interval(low_power_mode),
{
    if low_power_mode {
        MOUSE_MOVE_MIN_INTERVAL_NS_LOW_POWER
    } else {
        MOUSE_MOVE_MIN_INTERVAL_NS_NORMAL
    }
}

/// The window that an event claims to be over.
pub open spec fn window_hint(field: i64) -> Option<WindowServerId> {
    if 0 < field <= u32::MAX {
        Some(WindowServerId { raw: field as u32 })
    } else {
        None
    }
}

/// The window that an event claims to be over: the number in its field, if it
/// is one that a window can have.
pub fn mouse_window_hint(field: i64) -> (r: Option<WindowServerId>)
    ensures
        r == window_hint(field),
{
    if 0 < field && field <= u32::MAX as i64 {
        Some(WindowServerId { raw: field as u32 })
    } else {
        None
    }
}

/// The mask of the events that a tap is to deliver.
pub open spec fn event_mask_of(keyboard_enabled: bool, mouse_move_enabled: bool) -> u64 {
    BUTTON_EVENTS | (if mouse_move_enabled {
        MOVE_EVENTS
    } else {
        0
    }) | (if keyboard_enabled {
        KEYBOARD_EVENTS
    } else {
        0
    })
}

/// The number of an event type in a mask; `None` for types that are never
/// asked for.
pub open spec fn event_code(kind: EventType) -> Option<u64> {
    match kind {
        EventType::LeftMouseDown => Some(1),
        EventType::LeftMouseUp => Some(2),
        EventType::RightMouseDown => Some(3),
        EventType::RightMouseUp => Some(4),
        EventType::MouseMoved => Some(5),
        EventType::LeftMouseDragged => Some(6),
        EventType::RightMouseDragged => Some(7),
        EventType::KeyDown => Some(10),
        EventType::KeyUp => Some(11),
        EventType::FlagsChanged => Some(12),
        EventType::Other => None,
    }
}

/// The mask of the events that a tap is to deliver: button events always,
/// mouse moves and keyboard events where something handles them.
pub fn build_event_mask(keyboard_enabled: bool, mouse_move_enabled: bool) -> (r: u64)
    ensures
        r == event_mask_of(keyboard_enabled, mouse_move_enabled),
{
    let buttons: u64 = (1u64 << 1) | (1u64 << 2) | (1u64 << 3) | (1u64 << 4) | (1u64 << 6) | (1u64
        << 7);
    let moves: u64 = if mouse_move_enabled {
        1u64 << 5
    } else {
        0
    };
    let keyboard: u64 = if keyboard_enabled {
        (1u64 << 10) | (1u64 << 11) | (1u64 << 12)
    } else {
        0
    };
    assert((1u64 << 1) | (1u64 << 2) | (1u64 << 3) | (1u64 << 4) | (1u64 << 6) | (1u64 << 7)
        == 0xdeu64) by (bit_vector);
    assert(1u64 << 5 == 0x20u64) by (bit_vector);
    assert((1u64 << 10) | (1u64 << 11) | (1u64 << 12) == 0x1c00u64) by (bit_vector);
    buttons | moves | keyboard
}

/// The spaces of the screens that show one, in the order of the screens.
pub open spec fn shown_spaces(screens: Seq<ScreenState>) -> Seq<(Rect, SpaceId)>
    decreases screens.len(),
{
    if screens.len() == 0 {
        Seq::empty()
    } else {
        let rest = shown_spaces(screens.drop_last());
        match screens.last().space {
            Some(space) => rest.push((screens.last().frame, space)),
            None => rest,
        }
    }
}

/// The mode of each space, the last one where a space is listed twice.
pub open spec fn modes_of(modes: Seq<(SpaceId, LayoutMode)>) -> Map<SpaceId, LayoutMode>
    decreases modes.len(),
{
    if modes.len() == 0 {
        Map::empty()
    } else {
        modes_of(modes.drop_last()).insert(modes.last().0, modes.last().1)
    }
}

/// The held keys after a keyboard event.
pub open spec fn keys_after_key_event(keys: Set<KeyCode>, event: TapEvent) -> Set<KeyCode> {
    match event.key {
        None => keys,
        Some(key) => match event.kind {
            EventType::KeyDown => keys.insert(key),
            EventType::KeyUp => keys.remove(key),
            _ => if !key.modifier() {
                keys
            } else if key.held_in(event.flags) {
                keys.insert(key)
            } else {
                keys.remove(key)
            },
        },
    }
}

impl TapView {
    /// The next mouse move is processed whenever it comes.
    pub open spec fn gate_reset(self) -> TapView {
        TapView { mouse_move_last_timestamp: None, ..self }
    }

    /// The next mouse move finds its window anew.
    pub open spec fn window_reset(self) -> TapView {
        TapView { mouse_window: MouseWindow::spec_unknown(), ..self }
    }

    /// The next mouse move reports whether it hits an indicator.
    pub open spec fn sampling_reset(self) -> TapView {
        TapView { last_stack_line_hit: None, ..self }
    }

    /// Mouse moves are processed as if none had come before.
    pub open spec fn restarted(self) -> TapView {
        self.sampling_reset().gate_reset().window_reset()
    }

    /// A focus change is to hide the mouse, which is not hidden yet.
    pub open spec fn hides_on_focus(self) -> bool {
        self.mouse_hides_on_focus && self.hide_count == 0
    }

    pub open spec fn hidden(self) -> TapView {
        TapView { hide_count: (self.hide_count + 1) as u32, ..self }
    }

    pub open spec fn shown(self) -> TapView {
        TapView { hide_count: 0, ..self }
    }

    /// What shows a hidden mouse.
    pub open spec fn show_effects(self) -> Seq<TapEffect> {
        if self.hide_count > 0 {
            seq![TapEffect::ShowMouse { times: self.hide_count }]
        } else {
            Seq::empty()
        }
    }

    /// Focus follows the mouse, unless a hotkey suspends it.
    pub open spec fn focus_follows(self) -> bool {
        self.focus_follows_mouse_config_enabled && self.focus_follows_mouse_enabled
    }

    pub open spec fn handles_moves(self) -> bool {
        self.event_processing_enabled && (self.stack_line_enabled || self.focus_follows())
    }

    pub open spec fn handles_keyboard(self) -> bool {
        self.disable_hotkey is Some || self.hotkeys != Map::<Hotkey, Seq<WmCommand>>::empty()
    }

    /// The mask of the events that something handles.
    pub open spec fn desired_mask(self) -> u64 {
        event_mask_of(self.handles_keyboard(), self.handles_moves())
    }

    /// The key is held: a modifier by the flags, another key by its presses.
    pub open spec fn key_held(self, key: KeyCode) -> bool {
        if key.modifier() {
            key.held_in(self.current_flags)
        } else {
            self.pressed_keys.contains(key)
        }
    }

    /// The hotkey is held, where `active` are the modifiers that are.
    pub open spec fn hotkey_held(self, hotkey: Hotkey, active: Modifiers) -> bool {
        active.satisfies(hotkey.modifiers) && self.key_held(hotkey.key_code)
    }

    /// The tap with the suspension of focus-follows-mouse brought up to date.
    pub open spec fn refreshed(self, active: Modifiers) -> TapView {
        match self.disable_hotkey {
            None => self,
            Some(hotkey) => {
                let held = self.hotkey_held(hotkey, active);
                let next = TapView { disable_hotkey_active: held, ..self };
                if self.disable_hotkey_active && !held {
                    next.restarted()
                } else {
                    next
                }
            },
        }
    }

    /// The tap under other flags, with the modifier keys that these do not
    /// report no longer held.
    pub open spec fn flagged(self, flags: EventFlags) -> TapView {
        if flags == self.current_flags {
            self
        } else {
            TapView {
                current_flags: flags,
                pressed_keys: reconciled(self.pressed_keys, flags),
                ..self
            }
        }
    }

    /// The event is one from which flags or keys are learned.
    pub open spec fn learns(self, event: TapEvent) -> bool {
        if event.kind.keyboard() {
            !event.synthetic
        } else if event.kind == EventType::MouseMoved {
            self.event_processing_enabled && self.disable_hotkey is Some && event.flags
                != self.current_flags
        } else {
            event.flags != self.current_flags
        }
    }

    /// The tap with the flags and keys that the event reports.
    pub open spec fn noted(self, event: TapEvent) -> TapView {
        if !self.learns(event) {
            self
        } else if event.kind.keyboard() {
            TapView {
                current_flags: event.flags,
                pressed_keys: keys_after_key_event(self.pressed_keys, event),
                ..self
            }
        } else {
            self.flagged(event.flags)
        }
    }

    /// The tap with all that the event reports of keys taken into account,
    /// where `active` are the modifiers that are then held.
    pub open spec fn informed(self, event: TapEvent, active: Modifiers) -> TapView {
        if self.learns(event) {
            self.noted(event).refreshed(active)
        } else {
            self
        }
    }

    /// The drag that a press begins: a move with the left button, else a
    /// resize by the sides that are nearest to the press.
    pub open spec fn begun_drag(
        self,
        event: TapEvent,
        active: Modifiers,
        facts: PointerFacts,
    ) -> Option<ModifierDrag> {
        if self.mouse_modifier is None || !active.satisfies(self.mouse_modifier->0)
            || facts.window is None || (event.kind != EventType::LeftMouseDown
            && facts.window_center is None) {
            None
        } else {
            let sides = sides_toward(event.location, facts.window_center->0);
            Some(
                ModifierDrag {
                    window: facts.window->0,
                    action: if event.kind == EventType::LeftMouseDown {
                        MouseDragAction::Move
                    } else {
                        MouseDragAction::Resize { left: sides.left, top: sides.top }
                    },
                    last: event.location,
                    pending: Point::spec_zero(),
                    last_emit: 0,
                },
            )
        }
    }

    /// What is to be done about a keyboard event.
    pub open spec fn typed(self, event: TapEvent, active: Modifiers) -> Handled {
        if event.kind == EventType::KeyDown && event.key is Some && self.hotkeys.dom().contains(
            Hotkey { modifiers: active, key_code: event.key->0 },
        ) {
            Handled {
                tap: self,
                deliver: false,
                effects: if event.repeat {
                    Seq::empty()
                } else {
                    command_effects(
                        self.hotkeys[Hotkey { modifiers: active, key_code: event.key->0 }],
                    )
                },
            }
        } else {
            Handled { tap: self, deliver: true, effects: Seq::empty() }
        }
    }

    /// What is to be done about a button event that is processed.
    pub open spec fn button_handled(
        self,
        event: TapEvent,
        active: Modifiers,
        facts: PointerFacts,
    ) -> Handled {
        let ignored = Handled { tap: self, deliver: true, effects: Seq::empty() };
        if event.kind.press() {
            match self.begun_drag(event, active, facts) {
                Some(drag) => Handled {
                    tap: TapView { modifier_drag: Some(drag), ..self },
                    deliver: false,
                    effects: Seq::empty(),
                },
                None => ignored,
            }
        } else if event.kind.dragged() {
            match self.modifier_drag {
                Some(drag) => Handled {
                    tap: TapView {
                        modifier_drag: Some(
                            drag.accumulated(event.location, event.timestamp, facts.drag_total),
                        ),
                        ..self
                    },
                    deliver: false,
                    effects: if drag.throttles(event.timestamp) {
                        Seq::empty()
                    } else {
                        drag_effects(drag, facts.drag_total)
                    },
                },
                None => ignored,
            }
        } else if event.kind.release() {
            match self.modifier_drag {
                Some(drag) => Handled {
                    tap: TapView { modifier_drag: None, ..self },
                    deliver: false,
                    effects: drag_effects(drag, drag.pending).push(TapEffect::MouseUp),
                },
                None => Handled { effects: seq![TapEffect::MouseUp], ..ignored },
            }
        } else {
            ignored
        }
    }

    /// What is to be done about an event that is neither a key nor a move.
    pub open spec fn clicked(
        self,
        event: TapEvent,
        active: Modifiers,
        facts: PointerFacts,
    ) -> Handled {
        if event.kind.press() && facts.over_indicator && !facts.occluded {
            Handled {
                tap: self,
                deliver: false,
                effects: event.kind.mouse_state().push(
                    TapEffect::StackLineMouseDown(event.location),
                ),
            }
        } else if !self.event_processing_enabled {
            Handled { tap: self, deliver: true, effects: event.kind.mouse_state() }
        } else {
            let handled = self.shown().button_handled(event, active, facts);
            Handled {
                effects: event.kind.mouse_state() + self.show_effects() + handled.effects,
                ..handled
            }
        }
    }

    /// A sample over or off an indicator is worth telling the stack line: in
    /// hover mode every one, in click mode only a change.
    pub open spec fn tells_stack_line(self, hits: bool) -> bool {
        self.stack_line_enabled && (self.stack_line_hover_mode == StackLineHoverMode::Hover
            || self.last_stack_line_hit != Some(hits))
    }

    /// The window under the pointer: the one that was found last time, as long
    /// as the events claim to be over the same window.
    pub open spec fn window_under(self, hint: Option<WindowServerId>, found: Option<
        WindowServerId,
    >) -> Option<WindowServerId> {
        if self.mouse_window.valid && hint is Some && self.mouse_window.hint == hint {
            self.mouse_window.resolved
        } else {
            found
        }
    }

    /// What is done about an event depends on the window at its location: a
    /// move does where focus follows it to a window that it does not claim to
    /// be still over, a press where it may begin a drag. `active` are the
    /// modifiers that are held once the event is taken into account.
    pub open spec fn looks_up_window(self, event: TapEvent, active: Modifiers) -> bool {
        let tap = self.informed(event, active);
        let hint = window_hint(event.window_field);
        if event.kind == EventType::MouseMoved {
            tap.event_processing_enabled && tap.focus_follows() && !tap.disable_hotkey_active && !(
            tap.mouse_window.valid && hint is Some && tap.mouse_window.hint == hint)
        } else {
            event.kind.press() && tap.event_processing_enabled && tap.mouse_modifier is Some
                && active.satisfies(tap.mouse_modifier->0)
        }
    }

    /// What is to be done about a mouse move.
    pub open spec fn moved(self, event: TapEvent, facts: PointerFacts) -> Handled {
        if !self.event_processing_enabled {
            Handled { tap: self, deliver: true, effects: Seq::empty() }
        } else {
            let hits = facts.over_indicator && !facts.occluded;
            let told = self.tells_stack_line(hits);
            let tap = TapView {
                last_stack_line_hit: if told {
                    Some(hits)
                } else {
                    self.last_stack_line_hit
                },
                ..self.shown()
            };
            let effects = self.show_effects() + (if told {
                seq![
                    TapEffect::StackLineMouseMoved {
                        point: event.location,
                        hits_indicator: hits,
                    },
                ]
            } else {
                Seq::empty()
            });
            if self.focus_follows() && !self.disable_hotkey_active {
                let hint = window_hint(event.window_field);
                let window = self.window_under(hint, facts.window);
                let entered = !(self.mouse_window.valid && self.mouse_window.resolved == window)
                    && window is Some;
                Handled {
                    tap: TapView {
                        mouse_window: MouseWindow { hint, resolved: window, valid: true },
                        ..tap
                    },
                    deliver: true,
                    effects: effects + (if entered {
                        seq![
                            TapEffect::NoteActivity(window->0),
                            TapEffect::MouseMoved(window->0),
                        ]
                    } else {
                        Seq::empty()
                    }),
                }
            } else {
                Handled { tap, deliver: true, effects }
            }
        }
    }

    /// What is to be done about an event, where `active` are the modifiers
    /// that are held once the event is taken into account.
    pub open spec fn handled(
        self,
        event: TapEvent,
        active: Modifiers,
        facts: PointerFacts,
    ) -> Handled {
        let tap = self.informed(event, active);
        if event.kind == EventType::MouseMoved {
            tap.moved(event, facts)
        } else if event.kind.keyboard() {
            if event.synthetic {
                Handled { tap, deliver: true, effects: Seq::empty() }
            } else {
                tap.typed(event, active)
            }
        } else {
            tap.clicked(event, active, facts)
        }
    }

    /// The tap with the flags that the system reports and no key held.
    pub open spec fn recovered(self, flags: EventFlags) -> TapView {
        TapView { current_flags: flags, pressed_keys: Set::empty(), ..self }
    }

    /// A mouse move at `timestamp` comes too soon after the last one.
    pub open spec fn too_soon(self, timestamp: u64) -> bool {
        self.mouse_move_last_timestamp matches Some(last) && (if timestamp < last {
            0
        } else {
            timestamp - last
        }) < self.mouse_move_min_interval_ns
    }

    /// The tap under other settings, where `active` are the modifiers that are
    /// held.
    pub open spec fn configured(self, config: TapConfig, active: Modifiers) -> TapView {
        let set = TapView {
            mouse_hides_on_focus: config.mouse_hides_on_focus,
            focus_follows_mouse_config_enabled: config.focus_follows_mouse,
            stack_line_enabled: config.stack_line_enabled,
            stack_line_hover_mode: config.stack_line_hover,
            default_layout_mode: config.layout_mode,
            mouse_modifier: config.mouse_modifier,
            disable_hotkey: config.focus_follows_mouse_disable_hotkey,
            disable_hotkey_active: config.focus_follows_mouse_disable_hotkey is Some
                && self.hotkey_held(config.focus_follows_mouse_disable_hotkey->0, active),
            ..self
        };
        let resumed = self.disable_hotkey_active && !set.disable_hotkey_active;
        let resampled = self.focus_follows_mouse_config_enabled
            != set.focus_follows_mouse_config_enabled || self.stack_line_enabled
            != set.stack_line_enabled || self.stack_line_hover_mode != set.stack_line_hover_mode;
        let sampled = if resumed || resampled {
            set.restarted()
        } else {
            set
        };
        if self.reveals_mouse(config) {
            sampled.shown()
        } else {
            sampled
        }
    }

    /// The settings no longer hide the mouse, which is hidden.
    pub open spec fn reveals_mouse(self, config: TapConfig) -> bool {
        self.mouse_hides_on_focus && !config.mouse_hides_on_focus && self.hide_count > 0
    }

    pub open spec fn with_processing(self, enabled: bool) -> TapView {
        let set = TapView { event_processing_enabled: enabled, ..self };
        if enabled {
            set.restarted()
        } else {
            set
        }
    }

    pub open spec fn with_focus_following(self, enabled: bool) -> TapView {
        let set = TapView { focus_follows_mouse_enabled: enabled, ..self };
        if enabled {
            set.restarted()
        } else {
            set
        }
    }

    pub open spec fn with_low_power(self, enabled: bool) -> TapView {
        if self.low_power_mode == enabled {
            self
        } else {
            TapView {
                low_power_mode: enabled,
                mouse_move_min_interval_ns: sampling_interval(enabled),
                ..self
            }.sampling_reset().gate_reset()
        }
    }

    pub open spec fn with_screens(
        self,
        screens: Seq<ScreenState>,
        converter: CoordinateConverter,
    ) -> TapView {
        TapView {
            screens: screens.map_values(|screen: ScreenState| screen.frame),
            screen_spaces: shown_spaces(screens),
            converter,
            ..self
        }
    }

    /// The tap after the focus has changed.
    pub open spec fn focused(self) -> TapView {
        if self.hides_on_focus() {
            self.hidden()
        } else {
            self
        }
    }

    /// The tap after a request.
    pub open spec fn after_request(self, request: Request) -> TapView {
        match request {
            Request::Warp(_) => self.window_reset().focused(),
            Request::HideOnFocus => self.focused(),
            Request::EnforceHidden => if self.hide_count > 0 {
                self.hidden()
            } else {
                self
            },
            Request::SpaceStateUpdated(screens, converter) => self.with_screens(
                screens@,
                converter,
            ),
            Request::SetEventProcessing(enabled) => self.with_processing(enabled),
            Request::SetFocusFollowsMouseEnabled(enabled) => self.with_focus_following(enabled),
            Request::SetHotkeys(specs, resolutions) => TapView {
                hotkey_specs: specs@,
                hotkeys: bindings(resolutions@, spec_commands(specs@)),
                ..self
            },
            Request::KeyboardLayoutChanged(resolutions) => TapView {
                hotkeys: bindings(resolutions@, spec_commands(self.hotkey_specs)),
                ..self
            },
            Request::ConfigUpdated(config, active) => self.configured(config, active),
            Request::LayoutModesChanged(modes) => TapView {
                layout_mode_by_space: modes_of(modes@),
                ..self
            },
            Request::SetLowPowerMode(enabled) => self.with_low_power(enabled),
        }
    }

    /// What a request asks to be done outside.
    pub open spec fn request_effects(self, request: Request) -> Seq<TapEffect> {
        match request {
            Request::Warp(point) => if self.hides_on_focus() {
                seq![TapEffect::WarpMouse(point), TapEffect::HideMouse]
            } else {
                seq![TapEffect::WarpMouse(point)]
            },
            Request::HideOnFocus => if self.hides_on_focus() {
                seq![TapEffect::HideMouse]
            } else {
                Seq::empty()
            },
            Request::EnforceHidden => if self.hide_count > 0 {
                seq![TapEffect::HideMouse]
            } else {
                Seq::empty()
            },
            Request::ConfigUpdated(config, _) => if self.reveals_mouse(config) {
                self.show_effects()
            } else {
                Seq::empty()
            },
            _ => Seq::empty(),
        }
    }

    /// The mask of the tap that is needed in place of the present one.
    pub open spec fn mask_change(self) -> Option<u64> {
        if self.desired_mask() == self.event_mask {
            None
        } else {
            Some(self.desired_mask())
        }
    }

    /// The mask that a new tap is needed for after a request.
    pub open spec fn rebuild_for(self, request: Request) -> Option<u64> {
        if TapView::affects_mask(request) {
            self.after_request(request).mask_change()
        } else {
            None
        }
    }

    /// The number of the next tap.
    pub open spec fn next_generation(self) -> u64 {
        if self.tap_generation == u64::MAX {
            0
        } else {
            (self.tap_generation + 1) as u64
        }
    }

    /// The tap after it was created anew with `mask`.
    pub open spec fn recreated(self, mask: u64) -> TapView {
        TapView { tap_generation: self.next_generation(), event_mask: mask, ..self }
    }

    /// The tap after a mouse move at `timestamp`, which is noted unless it comes
    /// too soon.
    pub open spec fn sampled(self, timestamp: u64) -> TapView {
        if self.too_soon(timestamp) {
            self
        } else {
            TapView { mouse_move_last_timestamp: Some(timestamp), ..self }
        }
    }

    /// The request may change which events something handles.
    pub open spec fn affects_mask(request: Request) -> bool {
        request is SetEventProcessing || request is SetFocusFollowsMouseEnabled
            || request is SetHotkeys || request is KeyboardLayoutChanged
            || request is ConfigUpdated
    }
}

/// What hands motion of a drag to the reactor.
pub open spec fn drag_effects(drag: ModifierDrag, total: Point) -> Seq<TapEffect> {
    match ModifierDrag::release(total) {
        Some(delta) => seq![
            TapEffect::ModifierDrag { window: drag.window, action: drag.action, delta },
        ],
        None => Seq::empty(),
    }
}

/// What runs commands, in their order.
pub open spec fn command_effects(commands: Seq<WmCommand>) -> Seq<TapEffect> {
    commands.map_values(|command: WmCommand| TapEffect::Command(command))
}

/// The tap that starts with `config`, where `active` are the modifiers that
/// are held.
pub open spec fn initial_tap(
    config: TapConfig,
    low_power_mode: bool,
    active: Modifiers,
    converter: CoordinateConverter,
) -> TapView {
    let blank = TapView {
        hide_count: 0,
        mouse_hides_on_focus: config.mouse_hides_on_focus,
        focus_follows_mouse_config_enabled: config.focus_follows_mouse,
        default_layout_mode: config.layout_mode,
        converter,
        screens: Seq::empty(),
        event_processing_enabled: false,
        focus_follows_mouse_enabled: true,
        stack_line_enabled: config.stack_line_enabled,
        stack_line_hover_mode: config.stack_line_hover,
        disable_hotkey_active: false,
        mouse_modifier: config.mouse_modifier,
        modifier_drag: None,
        low_power_mode,
        pressed_keys: Set::empty(),
        current_flags: EventFlags { bits: 0 },
        screen_spaces: Seq::empty(),
        layout_mode_by_space: Map::empty(),
        last_stack_line_hit: None,
        event_mask: event_mask_of(
            config.focus_follows_mouse_disable_hotkey is Some,
            false,
        ),
        mouse_move_last_timestamp: None,
        mouse_move_min_interval_ns: sampling_interval(low_power_mode),
        mouse_window: MouseWindow::spec_unknown(),
        tap_generation: 0,
        disable_hotkey: config.focus_follows_mouse_disable_hotkey,
        hotkey_specs: Seq::empty(),
        hotkeys: Map::empty(),
    };
    TapView {
        disable_hotkey_active: blank.disable_hotkey is Some && blank.hotkey_held(
            blank.disable_hotkey->0,
            active,
        ),
        ..blank
    }
}

/// Take the flags and keys that an event reports into account, those of a
/// mouse move only where `from_moves` is set. Returns whether it reports any.
fn learn_keys(
    event: &TapEvent,
    from_moves: bool,
    flags: &mut EventFlags,
    keys: &mut KeySet,
) -> (r: bool)
    ensures
        r == (if event.kind.keyboard() {
            !event.synthetic
        } else {
            (event.kind != EventType::MouseMoved || from_moves) && event.flags != *old(flags)
        }),
        *final(flags) == (if r {
            event.flags
        } else {
            *old(flags)
        }),
        final(keys)@ == (if !r {
            old(keys)@
        } else if event.kind.keyboard() {
            keys_after_key_event(old(keys)@, *event)
        } else {
            reconciled(old(keys)@, event.flags)
        }),
{
    if event.kind.is_keyboard() {
        // Shortcuts that the window manager itself has directed to an
        // application are not interpreted again.
        if event.synthetic {
            return false;
        }
        // A change of flags is interpreted using the flags of this event,
        // rather than those of the previous one.
        *flags = event.flags;
        if let Some(key) = event.key {
            match event.kind {
                EventType::KeyDown => keys.insert(key),
                EventType::KeyUp => keys.remove(key),
                _ => note_flags_changed(key, event.flags, keys),
            }
        }
        return true;
    }
    if event.kind == EventType::MouseMoved && !from_moves {
        return false;
    }
    // Keep the modifiers in sync even when the event that reported their
    // release was dropped.
    if event.flags == *flags {
        return false;
    }
    *flags = event.flags;
    keys.reconcile(event.flags);
    true
}

fn note_flags_changed(key: KeyCode, flags: EventFlags, keys: &mut KeySet)
    ensures
        final(keys)@ == (if !key.modifier() {
            old(keys)@
        } else if key.held_in(flags) {
            old(keys)@.insert(key)
        } else {
            old(keys)@.remove(key)
        }),
{
    if !key.is_modifier() {
        return;
    }
    // The side flag tells the left key from the right one; the flag of the
    // whole family cannot.
    if key.is_held_in(flags) {
        keys.insert(key);
    } else {
        keys.remove(key);
    }
}

impl EventTap {
    pub closed spec fn wf(self) -> bool {
        self.layout_mode_by_space.wf()
    }

    /// The tap at the start, where `active` are the modifiers that are held
    /// while no event has been seen.
    pub fn new(
        config: TapConfig,
        low_power_mode: bool,
        active: Modifiers,
        converter: CoordinateConverter,
    ) -> (r: EventTap)
        ensures
            r.wf(),
            r@ == initial_tap(config, low_power_mode, active, converter),
    {
        let disable_hotkey = config.focus_follows_mouse_disable_hotkey;
        let event_mask: u64 = build_event_mask(disable_hotkey.is_some(), false);
        let mut tap = EventTap {
            hide_count: 0,
            mouse_hides_on_focus: config.mouse_hides_on_focus,
            focus_follows_mouse_config_enabled: config.focus_follows_mouse,
            default_layout_mode: config.layout_mode,
            converter,
            screens: Vec::new(),
            event_processing_enabled: false,
            focus_follows_mouse_enabled: true,
            stack_line_enabled: config.stack_line_enabled,
            stack_line_hover_mode: config.stack_line_hover,
            disable_hotkey_active: false,
            mouse_modifier: config.mouse_modifier,
            modifier_drag: None,
            low_power_mode,
            pressed_keys: KeySet::new(),
            current_flags: EventFlags { bits: 0 },
            screen_spaces: Vec::new(),
            layout_mode_by_space: Table::new(),
            last_stack_line_hit: None,
            event_mask,
            mouse_move_last_timestamp: None,
            mouse_move_min_interval_ns: mouse_move_sampling_profile(low_power_mode),
            mouse_window: MouseWindow::unknown(),
            tap_generation: 0,
            disable_hotkey,
            hotkey_specs: Vec::new(),
            hotkeys: SharedHotkeyTable::new(HotkeyTable::new()),
        };
        let active_now = match disable_hotkey {
            Some(hotkey) => tap.compute_disable_hotkey_active(hotkey, active),
            None => false,
        };
        tap.disable_hotkey_active = active_now;
        tap
    }

    /// How often the mouse was hidden and not yet shown.
    pub fn hide_count(&self) -> (r: u32)
        ensures
            r == self@.hide_count,
    {
        self.hide_count
    }

    /// The drag with the modifier held that is in progress.
    pub fn modifier_drag(&self) -> (r: Option<ModifierDrag>)
        ensures
            r == self@.modifier_drag,
    {
        self.modifier_drag
    }

    /// The mask of the present tap.
    pub fn event_mask(&self) -> (r: u64)
        ensures
            r == self@.event_mask,
    {
        self.event_mask
    }

    /// The specifications of the hotkeys, to be resolved anew.
    pub fn hotkey_specs(&self) -> (r: &Vec<(String, WmCommand)>)
        ensures
            r@ == self@.hotkey_specs,
    {
        &self.hotkey_specs
    }

    /// The screens that show a space.
    pub fn screen_spaces(&self) -> (r: &Vec<(Rect, SpaceId)>)
        ensures
            r@ == self@.screen_spaces,
    {
        &self.screen_spaces
    }

    /// The keys that are held and the flags that report them.
    pub fn key_state(&self) -> (r: KeyState)
        ensures
            r.flags == self@.current_flags,
            r.pressed@.no_duplicates(),
            forall|key: KeyCode| r.pressed@.contains(key) <==> self@.pressed_keys.contains(key),
    {
        KeyState { flags: self.current_flags, pressed: self.pressed_keys.to_vec() }
    }

    fn keyboard_handlers_enabled(&self) -> (r: bool)
        requires
            self.wf(),
        ensures
            r == self@.handles_keyboard(),
    {
        self.disable_hotkey.is_some() || !self.hotkeys.load().is_empty()
    }

    fn mouse_move_handlers_enabled(&self) -> (r: bool)
        ensures
            r == self@.handles_moves(),
    {
        self.event_processing_enabled && (self.stack_line_enabled
            || self.focus_follows_mouse_handler_enabled())
    }

    fn focus_follows_mouse_handler_enabled(&self) -> (r: bool)
        ensures
            r == self@.focus_follows(),
    {
        self.focus_follows_mouse_config_enabled && self.focus_follows_mouse_enabled
    }

    /// The mask of the events that something handles.
    pub fn desired_event_mask(&self) -> (r: u64)
        requires
            self.wf(),
        ensures
            r == self@.desired_mask(),
    {
        build_event_mask(self.keyboard_handlers_enabled(), self.mouse_move_handlers_enabled())
    }

    /// The mask of the tap that is needed in place of the present one; `None`
    /// where the present one will do.
    pub fn needed_event_mask(&self) -> (r: Option<u64>)
        requires
            self.wf(),
        ensures
            r == self@.mask_change(),
    {
        let next_mask: u64 = self.desired_event_mask();
        if next_mask == self.event_mask {
            None
        } else {
            Some(next_mask)
        }
    }

    /// The generation of the next tap.
    pub fn next_tap_generation(&self) -> (r: u64)
        ensures
            r == self@.next_generation(),
    {
        self.tap_generation.wrapping_add(1)
    }

    /// Note that a tap with `mask` was created and has replaced the old one.
    pub fn tap_created(&mut self, mask: u64)
        ensures
            final(self).wf() == old(self).wf(),
            final(self)@ == old(self)@.recreated(mask),
    {
        self.tap_generation = self.next_tap_generation();
        self.event_mask = mask;
    }

    /// Whether a tap of this generation is the present one. That a replaced
    /// tap was invalidated is of no interest.
    pub fn is_current_tap(&self, generation: u64) -> (r: bool)
        ensures
            r == (generation == self@.tap_generation),
    {
        generation == self.tap_generation
    }

    fn base_key_active(&self, key_code: KeyCode) -> (r: bool)
        ensures
            r == self@.key_held(key_code),
    {
        if key_code.is_modifier() {
            key_code.is_held_in(self.current_flags)
        } else {
            self.pressed_keys.contains(key_code)
        }
    }

    fn compute_disable_hotkey_active(&self, target: Hotkey, active: Modifiers) -> (r: bool)
        ensures
            r == self@.hotkey_held(target, active),
    {
        active.cover(target.modifiers) && self.base_key_active(target.key_code)
    }

    fn reset_mouse_sampling(&mut self)
        ensures
            final(self).wf() == old(self).wf(),
            final(self)@ == old(self)@.sampling_reset(),
    {
        self.last_stack_line_hit = None;
    }

    fn reset_mouse_move_sample_gate(&mut self)
        ensures
            final(self).wf() == old(self).wf(),
            final(self)@ == old(self)@.gate_reset(),
    {
        self.mouse_move_last_timestamp = None;
    }

    fn reset_mouse_window(&mut self)
        ensures
            final(self).wf() == old(self).wf(),
            final(self)@ == old(self)@.window_reset(),
    {
        self.mouse_window = MouseWindow::unknown();
    }

    fn restart_mouse_moves(&mut self)
        ensures
            final(self).wf() == old(self).wf(),
            final(self)@ == old(self)@.restarted(),
    {
        self.reset_mouse_sampling();
        self.reset_mouse_move_sample_gate();
        self.reset_mouse_window();
    }

    fn hide_mouse(&mut self, effects: &mut Vec<TapEffect>)
        requires
            old(self)@.hide_count < u32::MAX,
        ensures
            final(self).wf() == old(self).wf(),
            final(self)@ == old(self)@.hidden(),
            final(effects)@ == old(effects)@.push(TapEffect::HideMouse),
    {
        effects.push(TapEffect::HideMouse);
        self.hide_count = self.hide_count + 1;
    }

    fn show_mouse(&mut self, effects: &mut Vec<TapEffect>)
        ensures
            final(self).wf() == old(self).wf(),
            final(self)@ == old(self)@.shown(),
            final(effects)@ == old(effects)@ + old(self)@.show_effects(),
    {
        if self.hide_count > 0 {
            effects.push(TapEffect::ShowMouse { times: self.hide_count });
            self.hide_count = 0;
        }
    }

    fn refresh_disable_hotkey_state(&mut self, active: Modifiers)
        ensures
            final(self).wf() == old(self).wf(),
            final(self)@ == old(self)@.refreshed(active),
    {
        let Some(target) = self.disable_hotkey else {
            return;
        };
        let prev_active = self.disable_hotkey_active;
        let now_active = self.compute_disable_hotkey_active(target, active);
        self.disable_hotkey_active = now_active;
        if prev_active && !now_active {
            self.restart_mouse_moves();
        }
    }

    /// Whether a mouse move is processed: moves that come too soon after the
    /// last processed one are not.
    pub fn admit_mouse_move(&mut self, timestamp: u64) -> (r: bool)
        ensures
            final(self).wf() == old(self).wf(),
            r == !old(self)@.too_soon(timestamp),
            final(self)@ == old(self)@.sampled(timestamp),
    {
        if let Some(last) = self.mouse_move_last_timestamp {
            if timestamp.saturating_sub(last) < self.mouse_move_min_interval_ns {
                return false;
            }
        }
        self.mouse_move_last_timestamp = Some(timestamp);
        true
    }

    /// Start afresh after the tap was disabled for a while. Any key may have
    /// been released meanwhile, so no key counts as held, and the flags are
    /// those that the system reports; `active` are the modifiers that are held
    /// according to these alone.
    pub fn reconcile_after_tap_reenabled(&mut self, flags: EventFlags, active: Modifiers)
        ensures
            final(self).wf() == old(self).wf(),
            final(self)@ == old(self)@.recovered(flags).refreshed(active),
    {
        self.pressed_keys.clear();
        self.current_flags = flags;
        self.refresh_disable_hotkey_state(active);
    }

    /// Take the flags and keys that an event reports into account. Returns
    /// whether it reports any.
    fn note_event(&mut self, event: &TapEvent) -> (r: bool)
        ensures
            final(self).wf() == old(self).wf(),
            final(self)@ == old(self)@.noted(*event),
            r == old(self)@.learns(*event),
    {
        let from_moves = self.event_processing_enabled && self.disable_hotkey.is_some();
        learn_keys(event, from_moves, &mut self.current_flags, &mut self.pressed_keys)
    }

    /// The keys that are held once `event` is taken into account: those from
    /// which the modifiers that [`EventTap::on_event`] takes are derived.
    pub fn key_state_after(&self, event: &TapEvent) -> (r: KeyState)
        ensures
            r.flags == self@.noted(*event).current_flags,
            r.pressed@.no_duplicates(),
            forall|key: KeyCode|
                r.pressed@.contains(key) <==> self@.noted(*event).pressed_keys.contains(key),
    {
        let from_moves = self.event_processing_enabled && self.disable_hotkey.is_some();
        let mut flags = self.current_flags;
        let mut keys = self.pressed_keys.copy();
        let _learned = learn_keys(event, from_moves, &mut flags, &mut keys);
        KeyState { flags, pressed: keys.to_vec() }
    }

    fn begin_modifier_drag(
        &self,
        event: &TapEvent,
        active: Modifiers,
        facts: &PointerFacts,
    ) -> (r: Option<ModifierDrag>)
        ensures
            r == self@.begun_drag(*event, active, *facts),
    {
        let Some(modifier) = self.mouse_modifier else {
            return None;
        };
        if !active.cover(modifier) {
            return None;
        }
        let Some(window) = facts.window else {
            return None;
        };
        let action = if event.kind == EventType::LeftMouseDown {
            MouseDragAction::Move
        } else {
            let Some(center) = facts.window_center else {
                return None;
            };
            let sides = resize_sides(event.location, center);
            MouseDragAction::Resize { left: sides.left, top: sides.top }
        };
        Some(
            ModifierDrag {
                window,
                action,
                last: event.location,
                pending: Point::zero(),
                last_emit: 0,
            },
        )
    }

    /// Whether the window at the location of an event has to be found before
    /// the event is decided about. `active` are the modifiers that are held
    /// according to [`EventTap::key_state_after`].
    pub fn needs_window_lookup(&self, event: &TapEvent, active: Modifiers) -> (r: bool)
        ensures
            r == self@.looks_up_window(*event, active),
    {
        match event.kind {
            EventType::LeftMouseDown | EventType::RightMouseDown => match self.mouse_modifier {
                Some(modifier) => self.event_processing_enabled && active.cover(modifier),
                None => false,
            },
            EventType::MouseMoved => {
                let (suspended, forgotten) = self.suspension_after_move(event, active);
                let hint = mouse_window_hint(event.window_field);
                self.event_processing_enabled && self.focus_follows_mouse_handler_enabled()
                    && !suspended && (forgotten || !self.mouse_window.valid || hint.is_none()
                    || self.mouse_window.hint != hint)
            },
            _ => false,
        }
    }

    /// Whether focus-follows-mouse is suspended once a mouse move is taken into
    /// account, and whether it was until then.
    fn suspension_after_move(&self, event: &TapEvent, active: Modifiers) -> (r: (bool, bool))
        requires
            event.kind == EventType::MouseMoved,
        ensures
            r.0 == self@.informed(*event, active).disable_hotkey_active,
            r.1 == (self@.disable_hotkey_active && !r.0),
            self@.informed(*event, active).mouse_window == (if r.1 {
                MouseWindow::spec_unknown()
            } else {
                self@.mouse_window
            }),
    {
        let suspended = match self.disable_hotkey {
            Some(hotkey) => if self.event_processing_enabled && event.flags != self.current_flags {
                let key = hotkey.key_code;
                active.cover(hotkey.modifiers) && (if key.is_modifier() {
                    key.is_held_in(event.flags)
                } else {
                    self.pressed_keys.contains(key)
                })
            } else {
                self.disable_hotkey_active
            },
            None => self.disable_hotkey_active,
        };
        (suspended, self.disable_hotkey_active && !suspended)
    }

    /// Decide about an event. `active` are the modifiers that are held
    /// according to [`EventTap::key_state_after`].
    pub fn on_event(
        &mut self,
        event: &TapEvent,
        active: Modifiers,
        facts: &PointerFacts,
    ) -> (r: EventReply)
        requires
            old(self).wf(),
        ensures
            final(self).wf(),
            final(self)@ == old(self)@.handled(*event, active, *facts).tap,
            r.deliver == old(self)@.handled(*event, active, *facts).deliver,
            r.effects@ == old(self)@.handled(*event, active, *facts).effects,
    {
        if self.note_event(event) {
            self.refresh_disable_hotkey_state(active);
        }
        if event.kind == EventType::MouseMoved {
            return self.on_mouse_moved(event, facts);
        }
        if event.kind.is_keyboard() {
            if event.synthetic {
                return EventReply { deliver: true, effects: Vec::new() };
            }
            return self.handle_keyboard_event(event, active);
        }
        self.on_button_event(event, active, facts)
    }

    fn handle_keyboard_event(&self, event: &TapEvent, active: Modifiers) -> (r: EventReply)
        requires
            self.wf(),
        ensures
            self@.typed(*event, active) == (Handled {
                tap: self@,
                deliver: r.deliver,
                effects: r.effects@,
            }),
    {
        let mut effects: Vec<TapEffect> = Vec::new();
        if event.kind == EventType::KeyDown {
            if let Some(key_code) = event.key {
                let hotkey = Hotkey { modifiers: active, key_code };
                let bindings = self.hotkeys.load();
                if let Some(commands) = bindings.get(hotkey) {
                    // A held key generates repeated presses. Hotkeys are
                    // press-triggered, so repeats run nothing.
                    if event.repeat {
                        return EventReply { deliver: false, effects };
                    }
                    let mut i: usize = 0;
                    while i < commands.len()
                        invariant
                            i <= commands@.len(),
                            effects@ == command_effects(commands@.take(i as int)),
                        decreases commands@.len() - i,
                    {
                        effects.push(TapEffect::Command(commands[i]));
                        i = i + 1;
                        assert(effects@ =~= command_effects(commands@.take(i as int)));
                    }
                    assert(commands@.take(i as int) =~= commands@);
                    return EventReply { deliver: false, effects };
                }
            }
        }
        EventReply { deliver: true, effects }
    }

    fn push_drag(effects: &mut Vec<TapEffect>, drag: ModifierDrag, delta: Option<Point>)
        ensures
            final(effects)@ == (match delta {
                Some(delta) => old(effects)@.push(
                    TapEffect::ModifierDrag { window: drag.window, action: drag.action, delta },
                ),
                None => old(effects)@,
            }),
    {
        if let Some(delta) = delta {
            effects.push(
                TapEffect::ModifierDrag { window: drag.window, action: drag.action, delta },
            );
        }
    }

    fn on_button_event(
        &mut self,
        event: &TapEvent,
        active: Modifiers,
        facts: &PointerFacts,
    ) -> (r: EventReply)
        ensures
            final(self).wf() == old(self).wf(),
            old(self)@.clicked(*event, active, *facts) == (Handled {
                tap: final(self)@,
                deliver: r.deliver,
                effects: r.effects@,
            }),
    {
        let mut effects: Vec<TapEffect> = Vec::new();
        match event.kind {
            EventType::LeftMouseDown | EventType::RightMouseDown => {
                effects.push(TapEffect::SetMouseState(MouseState::Down));
                // Only a click on a visible, non-occluded indicator is
                // forwarded and kept from the application.
                if facts.over_indicator && !facts.occluded {
                    effects.push(TapEffect::StackLineMouseDown(event.location));
                    return EventReply { deliver: false, effects };
                }
            },
            EventType::LeftMouseDragged | EventType::RightMouseDragged => {
                effects.push(TapEffect::SetMouseState(MouseState::Down));
            },
            EventType::LeftMouseUp | EventType::RightMouseUp => {
                effects.push(TapEffect::SetMouseState(MouseState::Up));
            },
            _ => {},
        }
        assert(effects@ =~= event.kind.mouse_state());
        if !self.event_processing_enabled {
            return EventReply { deliver: true, effects };
        }
        self.show_mouse(&mut effects);
        let ghost shown = self@;
        let ghost before = effects@;
        match event.kind {
            EventType::LeftMouseDown | EventType::RightMouseDown => {
                if let Some(drag) = self.begin_modifier_drag(event, active, facts) {
                    self.modifier_drag = Some(drag);
                    assert(effects@ =~= before + Seq::<TapEffect>::empty());
                    return EventReply { deliver: false, effects };
                }
            },
            EventType::LeftMouseDragged | EventType::RightMouseDragged => {
                if let Some(drag) = self.modifier_drag {
                    let mut drag = drag;
                    let delta = drag.accumulate(
                        event.location,
                        event.timestamp,
                        facts.drag_total,
                    );
                    self.modifier_drag = Some(drag);
                    Self::push_drag(&mut effects, drag, delta);
                    assert(effects@ =~= before + shown.button_handled(
                        *event,
                        active,
                        *facts,
                    ).effects);
                    return EventReply { deliver: false, effects };
                }
            },
            EventType::LeftMouseUp | EventType::RightMouseUp => {
                // Held-back motion has to land before the drag session closes.
                if let Some(drag) = self.modifier_drag {
                    let mut drag = drag;
                    let delta = drag.flush();
                    self.modifier_drag = None;
                    Self::push_drag(&mut effects, drag, delta);
                    effects.push(TapEffect::MouseUp);
                    assert(effects@ =~= before + shown.button_handled(
                        *event,
                        active,
                        *facts,
                    ).effects);
                    // The application never saw the press that started the
                    // drag; hide the release too.
                    return EventReply { deliver: false, effects };
                }
                effects.push(TapEffect::MouseUp);
            },
            _ => {},
        }
        assert(effects@ =~= before + shown.button_handled(*event, active, *facts).effects);
        EventReply { deliver: true, effects }
    }

    fn resolve_mouse_window(&self, hint: Option<WindowServerId>, found: Option<WindowServerId>) -> (r:
        Option<WindowServerId>)
        ensures
            r == self@.window_under(hint, found),
    {
        // A claim that is made is stable while the pointer remains in the same
        // window. When none is made the pointer can cross windows without
        // changing it, so what was found counts.
        if self.mouse_window.valid && hint.is_some() && self.mouse_window.hint == hint {
            return self.mouse_window.resolved;
        }
        found
    }

    fn on_mouse_moved(&mut self, event: &TapEvent, facts: &PointerFacts) -> (r: EventReply)
        ensures
            final(self).wf() == old(self).wf(),
            old(self)@.moved(*event, *facts) == (Handled {
                tap: final(self)@,
                deliver: r.deliver,
                effects: r.effects@,
            }),
    {
        let mut effects: Vec<TapEffect> = Vec::new();
        if !self.event_processing_enabled {
            return EventReply { deliver: true, effects };
        }
        self.show_mouse(&mut effects);
        let ghost shown_effects = effects@;
        // Click mode only needs hit-test transitions for cursor feedback.
        // Hover mode forwards samples so that segment changes are noticed.
        if self.stack_line_enabled {
            let hits = facts.over_indicator && !facts.occluded;
            if self.stack_line_hover_mode == StackLineHoverMode::Hover || self.last_stack_line_hit
                != Some(hits) {
                self.last_stack_line_hit = Some(hits);
                effects.push(
                    TapEffect::StackLineMouseMoved {
                        point: event.location,
                        hits_indicator: hits,
                    },
                );
            }
        }
        // The reactor only needs to see transitions from window to window.
        if self.focus_follows_mouse_handler_enabled() && !self.disable_hotkey_active {
            let hint = mouse_window_hint(event.window_field);
            let window = self.resolve_mouse_window(hint, facts.window);
            let known = self.mouse_window.valid && self.mouse_window.resolved == window;
            // The claim is kept current even where both samples are found over
            // the same window.
            self.mouse_window = MouseWindow { hint, resolved: window, valid: true };
            if !known {
                if let Some(window) = window {
                    effects.push(TapEffect::NoteActivity(window));
                    effects.push(TapEffect::MouseMoved(window));
                }
            }
        }
        assert(shown_effects =~= old(self)@.show_effects());
        assert(effects@ =~= old(self)@.moved(*event, *facts).effects);
        EventReply { deliver: true, effects }
    }

    /// Act on a request.
    pub fn on_request(&mut self, request: Request) -> (r: RequestReply)
        requires
            old(self).wf(),
            request is EnforceHidden ==> old(self)@.hide_count < u32::MAX,
            request matches Request::SetHotkeys(specs, resolutions) ==> specs@.len()
                == resolutions@.len(),
            request matches Request::KeyboardLayoutChanged(resolutions) ==> resolutions@.len()
                == old(self)@.hotkey_specs.len(),
        ensures
            final(self).wf(),
            final(self)@ == old(self)@.after_request(request),
            r.effects@ == old(self)@.request_effects(request),
            r.rebuild == old(self)@.rebuild_for(request),
    {
        let mut should_rebuild_mask = false;
        let mut effects: Vec<TapEffect> = Vec::new();
        match request {
            Request::Warp(point) => {
                self.reset_mouse_window();
                effects.push(TapEffect::WarpMouse(point));
                self.hide_on_focus(&mut effects);
            },
            Request::HideOnFocus => {
                self.hide_on_focus(&mut effects);
            },
            Request::EnforceHidden => {
                if self.hide_count > 0 {
                    self.hide_mouse(&mut effects);
                }
            },
            Request::SpaceStateUpdated(screens, converter) => {
                self.update_screens(&screens, converter);
            },
            Request::SetEventProcessing(enabled) => {
                self.set_event_processing(enabled);
                should_rebuild_mask = true;
            },
            Request::SetFocusFollowsMouseEnabled(enabled) => {
                self.set_focus_follows_mouse(enabled);
                should_rebuild_mask = true;
            },
            Request::SetHotkeys(specs, resolutions) => {
                self.set_hotkeys(specs, &resolutions);
                should_rebuild_mask = true;
            },
            Request::KeyboardLayoutChanged(resolutions) => {
                self.rebuild_hotkeys_for_current_layout(&resolutions);
                should_rebuild_mask = true;
            },
            Request::ConfigUpdated(config, active) => {
                self.update_config(config, active, &mut effects);
                should_rebuild_mask = true;
            },
            Request::LayoutModesChanged(modes) => {
                self.update_layout_modes(&modes);
            },
            Request::SetLowPowerMode(enabled) => {
                self.set_low_power_mode(enabled);
            },
        }
        let rebuild = if should_rebuild_mask {
            self.needed_event_mask()
        } else {
            None
        };
        RequestReply { effects, rebuild }
    }

    fn hide_on_focus(&mut self, effects: &mut Vec<TapEffect>)
        ensures
            final(self).wf() == old(self).wf(),
            final(self)@ == old(self)@.focused(),
            final(effects)@ == (if old(self)@.hides_on_focus() {
                old(effects)@.push(TapEffect::HideMouse)
            } else {
                old(effects)@
            }),
    {
        if self.mouse_hides_on_focus && self.hide_count == 0 {
            self.hide_mouse(effects);
        }
    }

    fn set_event_processing(&mut self, enabled: bool)
        ensures
            final(self).wf() == old(self).wf(),
            final(self)@ == old(self)@.with_processing(enabled),
    {
        self.event_processing_enabled = enabled;
        if enabled {
            self.restart_mouse_moves();
        }
    }

    fn set_focus_follows_mouse(&mut self, enabled: bool)
        ensures
            final(self).wf() == old(self).wf(),
            final(self)@ == old(self)@.with_focus_following(enabled),
    {
        self.focus_follows_mouse_enabled = enabled;
        if enabled {
            self.restart_mouse_moves();
        }
    }

    fn set_low_power_mode(&mut self, enabled: bool)
        ensures
            final(self).wf() == old(self).wf(),
            final(self)@ == old(self)@.with_low_power(enabled),
    {
        if self.low_power_mode != enabled {
            self.low_power_mode = enabled;
            self.reset_mouse_sampling();
            self.mouse_move_min_interval_ns = mouse_move_sampling_profile(enabled);
            self.reset_mouse_move_sample_gate();
        }
    }

    fn set_hotkeys(&mut self, specs: Vec<(String, WmCommand)>, resolutions: &Vec<Resolution>)
        requires
            old(self).wf(),
            specs@.len() == resolutions@.len(),
        ensures
            final(self).wf(),
            final(self)@ == (TapView {
                hotkey_specs: specs@,
                hotkeys: bindings(resolutions@, spec_commands(specs@)),
                ..old(self)@
            }),
    {
        self.hotkey_specs = specs;
        self.rebuild_hotkeys_for_current_layout(resolutions);
    }

    fn rebuild_hotkeys_for_current_layout(&mut self, resolutions: &Vec<Resolution>)
        requires
            old(self).wf(),
            resolutions@.len() == old(self)@.hotkey_specs.len(),
        ensures
            final(self).wf(),
            final(self)@ == (TapView {
                hotkeys: bindings(resolutions@, spec_commands(old(self)@.hotkey_specs)),
                ..old(self)@
            }),
    {
        self.hotkeys.store(HotkeyTable::rebuild(resolutions, &self.hotkey_specs));
    }

    fn update_screens(&mut self, screens: &Vec<ScreenState>, converter: CoordinateConverter)
        ensures
            final(self).wf() == old(self).wf(),
            final(self)@ == old(self)@.with_screens(screens@, converter),
    {
        let mut frames: Vec<Rect> = Vec::new();
        let mut spaces: Vec<(Rect, SpaceId)> = Vec::new();
        let mut i: usize = 0;
        while i < screens.len()
            invariant
                i <= screens@.len(),
                frames@ == screens@.take(i as int).map_values(
                    |screen: ScreenState| screen.frame,
                ),
                spaces@ == shown_spaces(screens@.take(i as int)),
            decreases screens@.len() - i,
        {
            let screen = screens[i];
            frames.push(screen.frame);
            if let Some(space) = screen.space {
                spaces.push((screen.frame, space));
            }
            assert(screens@.take(i + 1).drop_last() =~= screens@.take(i as int));
            i = i + 1;
            assert(frames@ =~= screens@.take(i as int).map_values(
                |screen: ScreenState| screen.frame,
            ));
        }
        assert(screens@.take(i as int) =~= screens@);
        self.screens = frames;
        self.screen_spaces = spaces;
        self.converter = converter;
    }

    fn update_layout_modes(&mut self, modes: &Vec<(SpaceId, LayoutMode)>)
        requires
            old(self).wf(),
        ensures
            final(self).wf(),
            final(self)@ == (TapView { layout_mode_by_space: modes_of(modes@), ..old(self)@ }),
    {
        let mut table: Table<SpaceId, LayoutMode> = Table::new();
        let mut i: usize = 0;
        while i < modes.len()
            invariant
                i <= modes@.len(),
                table.wf(),
                table@ == modes_of(modes@.take(i as int)),
            decreases modes@.len() - i,
        {
            let (space, mode) = modes[i];
            table.insert(space, mode);
            assert(modes@.take(i + 1).drop_last() =~= modes@.take(i as int));
            i = i + 1;
        }
        assert(modes@.take(i as int) =~= modes@);
        self.layout_mode_by_space = table;
    }

    fn update_config(&mut self, config: TapConfig, active: Modifiers, effects: &mut Vec<TapEffect>)
        ensures
            final(self).wf() == old(self).wf(),
            final(self)@ == old(self)@.configured(config, active),
            final(effects)@ == old(effects)@ + (if old(self)@.reveals_mouse(config) {
                old(self)@.show_effects()
            } else {
                Seq::empty()
            }),
    {
        let prev_mouse_hides_on_focus = self.mouse_hides_on_focus;
        let prev_focus_follows_mouse = self.focus_follows_mouse_config_enabled;
        let prev_stack_line_enabled = self.stack_line_enabled;
        let prev_stack_line_hover_mode = self.stack_line_hover_mode;
        self.disable_hotkey = config.focus_follows_mouse_disable_hotkey;
        self.mouse_hides_on_focus = config.mouse_hides_on_focus;
        self.focus_follows_mouse_config_enabled = config.focus_follows_mouse;
        self.stack_line_enabled = config.stack_line_enabled;
        self.stack_line_hover_mode = config.stack_line_hover;
        self.default_layout_mode = config.layout_mode;
        self.mouse_modifier = config.mouse_modifier;
        let prev_active = self.disable_hotkey_active;
        let now_active = match self.disable_hotkey {
            Some(target) => self.compute_disable_hotkey_active(target, active),
            None => false,
        };
        self.disable_hotkey_active = now_active;
        if prev_active && !now_active {
            self.restart_mouse_moves();
        }
        if prev_focus_follows_mouse != self.focus_follows_mouse_config_enabled
            || prev_stack_line_enabled != self.stack_line_enabled || prev_stack_line_hover_mode
            != self.stack_line_hover_mode {
            self.restart_mouse_moves();
        }
        if prev_mouse_hides_on_focus && !self.mouse_hides_on_focus {
            self.show_mouse(effects);
        }
    }

    /// The layout mode of the space at a point, where `inside` says for each
    /// screen that shows a space whether the point lies on it.
    pub fn layout_mode_at_point(&self, inside: &Vec<bool>) -> (r: Option<LayoutMode>)
        requires
            self.wf(),
            inside@.len() == self@.screen_spaces.len(),
        ensures
            forall|i: int|
                0 <= i < inside@.len() && #[trigger] inside@[i] && (forall|j: int|
                    0 <= j < i ==> !inside@[j]) ==> r == (
                if self@.layout_mode_by_space.dom().contains(self@.screen_spaces[i].1) {
                    Some(self@.layout_mode_by_space[self@.screen_spaces[i].1])
                } else {
                    None
                }),
            (forall|i: int| 0 <= i < inside@.len() ==> !inside@[i]) ==> r is None,
    {
        let mut i: usize = 0;
        while i < inside.len()
            invariant
                self.wf(),
                inside@.len() == self@.screen_spaces.len(),
                i <= inside@.len(),
                forall|j: int| 0 <= j < i ==> !inside@[j],
            decreases inside@.len() - i,
        {
            if inside[i] {
                return match self.layout_mode_by_space.get(self.screen_spaces[i].1) {
                    Some(mode) => Some(*mode),
                    None => None,
                };
            }
            i = i + 1;
        }
        None
    }
}

} // verus!
