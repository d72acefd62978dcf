//! Key events as the hook callback receives them, and their classification.
use vstd::prelude::*;
use crate::keys::{
    HC_ACTION, LLKHF_INJECTED, VK_LWIN, VK_RWIN, VK_V, WM_KEYDOWN, WM_KEYUP, WM_SYSKEYDOWN,
    WM_SYSKEYUP,
};

verus! {

/// The edge that a key event reports.
#[derive(Clone, Copy, Debug, PartialEq, Eq, Structural)]
pub enum Transition {
    /// The key went down.
    Down,
    /// The key went up.
    Up,
    /// The message was neither a press nor a release.
    Other,
}

/// One observed key transition. It lives for one callback invocation.
#[derive(Clone, Copy, Debug, PartialEq, Eq, Structural)]
pub struct KeyEvent {
    pub virtual_key: u32,
    pub transition: Transition,
    /// Set when software, not hardware, produced the event.
    pub injected: bool,
}

/// What an event is to the chord detector. The order of the variants is the
/// order in which the detector asks: the injected marker wins over the key.
#[derive(Clone, Copy, Debug, PartialEq, Eq, Structural)]
pub enum KeyClass {
    /// Carries the injected marker, whatever its key.
    Injected,
    /// A hardware event of the left or right modifier key.
    Modifier,
    /// A hardware event of the trigger letter.
    Trigger,
    /// A hardware event of any other key.
    Other,
}

/// The transition that a keyboard message stands for.
pub open spec fn transition_of(message: u32) -> Transition {
    if message == WM_KEYDOWN || message == WM_SYSKEYDOWN {
        Transition::Down
    } else if message == WM_KEYUP || message == WM_SYSKEYUP {
        Transition::Up
    } else {
        Transition::Other
    }
}

/// Whether the event flags carry the injected marker.
pub open spec fn has_injected_marker(flags: u32) -> bool {
    flags & LLKHF_INJECTED != 0
}

/// Whether a virtual key is one of the two modifier keys of the chord.
pub open spec fn is_modifier_key(virtual_key: u32) -> bool {
    virtual_key == VK_LWIN || virtual_key == VK_RWIN
}

/// Whether a virtual key is the trigger letter of the chord.
pub open spec fn is_trigger_key(virtual_key: u32) -> bool {
    virtual_key == VK_V
}

/// The class of an event.
pub open spec fn class_of(event: KeyEvent) -> KeyClass {
    if event.injected {
        KeyClass::Injected
    } else if is_modifier_key(event.virtual_key) {
        KeyClass::Modifier
    } else if is_trigger_key(event.virtual_key) {
        KeyClass::Trigger
    } else {
        KeyClass::Other
    }
}

/// The event that a callback invocation carries, if it carries one.
pub open spec fn event_of_callback(code: i32, message: u32, virtual_key: u32, flags: u32) -> Option<
    KeyEvent,
> {
    if code == HC_ACTION {
        Some(
            KeyEvent {
                virtual_key,
                transition: transition_of(message),
                injected: has_injected_marker(flags),
            },
        )
    } else {
        None
    }
}

/// Decodes a keyboard message into the transition it reports.
pub fn decode_transition(message: u32) -> (transition: Transition)
    ensures
        transition == transition_of(message),
{
    if message == WM_KEYDOWN || message == WM_SYSKEYDOWN {
        Transition::Down
    } else if message == WM_KEYUP || message == WM_SYSKEYUP {
        Transition::Up
    } else {
        Transition::Other
    }
}

/// Tests the event flags for the injected marker.
pub fn is_injected(flags: u32) -> (injected: bool)
    ensures
        injected == has_injected_marker(flags),
{
    (flags & LLKHF_INJECTED) != 0
}

impl KeyEvent {
    /// Builds the event of one callback invocation from the raw values the
    /// dispatcher hands over. A callback whose code is not `HC_ACTION`
    /// carries no event and must be passed on without inspection.
    pub fn from_callback(code: i32, message: u32, virtual_key: u32, flags: u32) -> (event: Option<
        KeyEvent,
    >)
        ensures
            event == event_of_callback(code, message, virtual_key, flags),
    {
        if code == HC_ACTION {
            Some(
                KeyEvent {
                    virtual_key,
                    transition: decode_transition(message),
                    injected: is_injected(flags),
                },
            )
        } else {
            None
        }
    }

    /// Classifies the event for the detector.
    pub fn classify(&self) -> (class: KeyClass)
        ensures
            class == class_of(*self),
    {
        if self.injected {
            KeyClass::Injected
        } else if self.virtual_key == VK_LWIN || self.virtual_key == VK_RWIN {
            KeyClass::Modifier
        } else if self.virtual_key == VK_V {
            KeyClass::Trigger
        } else {
            KeyClass::Other
        }
    }

    /// Whether handling this event needs the system's own answer on the
    /// modifier keys. Only a hardware event of the trigger letter does, so
    /// the level queries stay off the path of every other keystroke.
    pub fn needs_oracle(&self) -> (needed: bool)
        ensures
            needed == (class_of(*self) == KeyClass::Trigger),
    {
        !self.injected && self.virtual_key == VK_V
    }
}

} // verus!
