//! The logical input event: a category, a code within that category, and a
//! value whose meaning depends on the category.

use vstd::prelude::*;
use crate::codes::{EV_KEY, EV_LED, EV_SYN, HOTKEY, LED_CAPSL};

verus! {

/// Key value of a release transition.
pub const KEY_RELEASE: i32 = 0;

/// Key value of a press transition.
pub const KEY_PRESS: i32 = 1;

/// Key value of an auto-repeat.
pub const KEY_REPEAT: i32 = 2;

/// LED brightness that marks the indicator as lit.
pub const LED_MAX_BRIGHTNESS: i32 = 0x7fff_ffff;

#[derive(Clone, Copy, Debug, PartialEq, Eq, Structural)]
pub struct LogicalEvent {
    pub category: u16,
    pub code: u16,
    pub value: i32,
}

impl LogicalEvent {
    pub open spec fn is_sync(self) -> bool {
        self.category == EV_SYN
    }

    pub open spec fn is_key(self) -> bool {
        self.category == EV_KEY
    }

    /// A key event of the layout-toggle key, in any transition.
    pub open spec fn is_hotkey(self) -> bool {
        self.category == EV_KEY && self.code == HOTKEY
    }

    /// A release of the layout-toggle key.
    pub open spec fn is_hotkey_release(self) -> bool {
        self.is_hotkey() && self.value == KEY_RELEASE
    }

    pub fn new(category: u16, code: u16, value: i32) -> (r: LogicalEvent)
        ensures
            r == (LogicalEvent { category, code, value }),
    {
        LogicalEvent { category, code, value }
    }

    /// A key event of the given key code and transition value.
    pub fn key(code: u16, value: i32) -> (r: LogicalEvent)
        ensures
            r == (LogicalEvent { category: EV_KEY, code, value }),
    {
        LogicalEvent { category: EV_KEY, code, value }
    }

    /// A synchronization marker.
    pub fn sync() -> (r: LogicalEvent)
        ensures
            r == (LogicalEvent { category: EV_SYN, code: 0, value: 0 }),
    {
        LogicalEvent { category: EV_SYN, code: 0, value: 0 }
    }

    pub fn is_sync_event(&self) -> (r: bool)
        ensures
            r == self.is_sync(),
    {
        self.category == EV_SYN
    }

    pub fn is_hotkey_event(&self) -> (r: bool)
        ensures
            r == self.is_hotkey(),
    {
        self.category == EV_KEY && self.code == HOTKEY
    }
}

/// The indicator event that mirrors the layout state on the caps-lock LED:
/// lit at full brightness when the layout is active, dark otherwise.
pub open spec fn led_sync_of(active: bool) -> LogicalEvent {
    LogicalEvent {
        category: EV_LED,
        code: LED_CAPSL,
        value: if active { LED_MAX_BRIGHTNESS } else { 0 },
    }
}

pub fn led_sync(active: bool) -> (r: LogicalEvent)
    ensures
        r == led_sync_of(active),
{
    LogicalEvent {
        category: EV_LED,
        code: LED_CAPSL,
        value: if active { LED_MAX_BRIGHTNESS } else { 0 },
    }
}

} // verus!
