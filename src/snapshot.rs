//! The set of keys held at the moment of a query, and the bypass modifiers
//! that suspend remapping while held.

use vstd::prelude::*;
use crate::codes::{KEY_LEFTCTRL, KEY_RIGHTCTRL};

verus! {

/// The keys reported as held by the device when it was queried.
pub struct KeyStateSnapshot {
    held: Vec<u16>,
}

impl View for KeyStateSnapshot {
    type V = Set<u16>;

    closed spec fn view(&self) -> Set<u16> {
        self.held@.to_set()
    }
}

impl KeyStateSnapshot {
    /// A snapshot in which exactly the listed codes are held.
    pub fn new(held: Vec<u16>) -> (r: KeyStateSnapshot)
        ensures
            r@ == held@.to_set(),
    {
        KeyStateSnapshot { held }
    }

    /// A snapshot in which no key is held.
    pub fn empty() -> (r: KeyStateSnapshot)
        ensures
            r@ == Set::<u16>::empty(),
    {
        let r = KeyStateSnapshot { held: Vec::new() };
        assert(r@ =~= Set::<u16>::empty());
        r
    }

    pub fn contains(&self, code: u16) -> (r: bool)
        ensures
            r == self@.contains(code),
    {
        let mut i: usize = 0;
        while i < self.held.len()
            invariant
                i <= self.held@.len(),
                forall|j: int| 0 <= j < i ==> self.held@[j] != code,
            decreases self.held@.len() - i,
        {
            if self.held[i] == code {
                return true;
            }
            i += 1;
        }
        assert(!self.held@.contains(code));
        false
    }
}

/// A bypass modifier (either control key) is held in the snapshot.
pub open spec fn bypass_held(held: Set<u16>) -> bool {
    held.contains(KEY_LEFTCTRL) || held.contains(KEY_RIGHTCTRL)
}

/// Whether remapping is suspended for the batch that follows the snapshot:
/// true exactly when a control key is held.
pub fn is_bypass_active(snapshot: &KeyStateSnapshot) -> (r: bool)
    ensures
        r == bypass_held(snapshot@),
{
    snapshot.contains(KEY_LEFTCTRL) || snapshot.contains(KEY_RIGHTCTRL)
}

} // verus!
