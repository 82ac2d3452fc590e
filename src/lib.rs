//! Keyboard layout remapping: the decisions of a daemon that takes a physical
//! keyboard's event stream, rewrites key codes from QWERTY to Dvorak while the
//! layout is active, and hands the rewritten stream back for re-emission.

pub mod codes;
pub mod layout;
pub mod event;
pub mod snapshot;
pub mod toggle;
pub mod batch;
