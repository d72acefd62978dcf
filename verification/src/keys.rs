//! Numeric codes of the keyboard hook interface.
use vstd::prelude::*;

verus! {

/// Virtual key of the left-hand modifier of the chord.
pub const VK_LWIN: u32 = 0x5B;

/// Virtual key of the right-hand modifier of the chord.
pub const VK_RWIN: u32 = 0x5C;

/// Virtual key of the trigger letter of the chord.
pub const VK_V: u32 = 0x56;

/// Message sent when a key goes down.
pub const WM_KEYDOWN: u32 = 0x0100;

/// Message sent when a key goes up.
pub const WM_KEYUP: u32 = 0x0101;

/// Message sent when a key goes down while the system modifier is held.
pub const WM_SYSKEYDOWN: u32 = 0x0104;

/// Message sent when a key goes up while the system modifier is held.
pub const WM_SYSKEYUP: u32 = 0x0105;

/// Bit of the event flags that marks an event made by software.
pub const LLKHF_INJECTED: u32 = 0x0000_0010;

/// Hook code of a callback that carries a keyboard event.
pub const HC_ACTION: i32 = 0;

} // verus!
