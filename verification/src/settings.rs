//! Settings that decide how input is processed.

use crate::keys::{Hotkey, Modifiers};
use crate::scalar::Scalar;
use vstd::prelude::*;

verus! {

/// How the windows of a space are laid out. The modes that input processing
/// does not tell apart are carried by their number.
#[derive(Clone, Copy, Debug, PartialEq, Eq, Structural)]
pub enum LayoutMode {
    Traditional,
    Scrolling,
    Floating,
    Other(u32),
}

/// When the indicator of a stack reacts to the pointer.
#[derive(Clone, Copy, Debug, PartialEq, Eq, Structural)]
pub enum StackLineHoverMode {
    /// Only when it is clicked; the pointer over it merely changes the cursor.
    Click,
    /// As soon as the pointer is over one of its segments.
    Hover,
}

#[derive(Clone, Copy, Debug, PartialEq, Eq, Structural)]
pub enum MouseState {
    Down,
    Up,
}

/// What turns the coordinates of one system into those of the other.
#[derive(Clone, Copy, Debug, PartialEq, Eq, Structural)]
pub struct CoordinateConverter {
    pub screen_height: Scalar,
}

/// The settings of the event tap.
#[derive(Clone, Copy, Debug, PartialEq, Eq, Structural)]
pub struct TapConfig {
    pub mouse_hides_on_focus: bool,
    pub mouse_modifier: Option<Modifiers>,
    pub focus_follows_mouse: bool,
    /// The hotkey that suspends focus-follows-mouse while it is held.
    pub focus_follows_mouse_disable_hotkey: Option<Hotkey>,
    pub stack_line_enabled: bool,
    pub stack_line_hover: StackLineHoverMode,
    pub layout_mode: LayoutMode,
}

} // verus!
