//! Whether the Dvorak layout is applied.

use vstd::prelude::*;

verus! {

/// The layout flag: inactive at start, flipped by each release of the hotkey.
pub struct ToggleState {
    layout_active: bool,
}

impl View for ToggleState {
    type V = bool;

    closed spec fn view(&self) -> bool {
        self.layout_active
    }
}

impl ToggleState {
    pub fn new() -> (r: ToggleState)
        ensures
            !r@,
    {
        ToggleState { layout_active: false }
    }

    pub fn is_active(&self) -> (r: bool)
        ensures
            r == self@,
    {
        self.layout_active
    }

    /// Flips the flag and returns its new value.
    pub fn on_hotkey_release(&mut self) -> (r: bool)
        ensures
            final(self)@ == !old(self)@,
            r == final(self)@,
    {
        self.layout_active = !self.layout_active;
        self.layout_active
    }
}

} // verus!
