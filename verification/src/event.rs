//! Physical input events as the capture loop hands them to the library.

use vstd::prelude::*;
use crate::keys::{KeyCode, EV_KEY, VALUE_PRESS};

verus! {

/// One event read from the captured device.
#[derive(Clone, Copy, Debug, PartialEq, Eq, Structural)]
pub struct InputEvent {
    /// When the event happened, in microseconds since the epoch.
    pub timestamp_us: u64,
    /// The type of the event; `EV_KEY` for key events.
    pub event_type: u16,
    /// The key the event is about, for a key event.
    pub code: KeyCode,
    /// 0 for a release, 1 for the initial press, 2 for an auto-repeat.
    pub value: i32,
}

impl InputEvent {
    /// Whether the event carries a key and a value.
    pub open spec fn is_key(self) -> bool {
        self.event_type == EV_KEY
    }

    /// Whether the event is the initial press of a key.
    pub open spec fn is_press(self) -> bool {
        self.is_key() && self.value == VALUE_PRESS
    }
}

} // verus!
