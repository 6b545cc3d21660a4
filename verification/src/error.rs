//! What can go wrong inside the library.

use vstd::prelude::*;
use vstd::string::*;

verus! {

/// The failures the library reports. Settings that cannot be read, a device
/// lost while capturing and a synthetic event that does not go out are the
/// caller's to see: none of them reaches the library.
#[derive(Clone, Copy, Debug, PartialEq, Eq, Structural)]
pub enum SwitcherError {
    /// No candidate device survived selection.
    DeviceNotFound,
}

impl SwitcherError {
    /// The text that describes the failure.
    pub open spec fn text(self) -> Seq<char> {
        match self {
            SwitcherError::DeviceNotFound => "No keyboard found"@,
        }
    }

    /// Describes the failure for diagnostics.
    pub fn message(&self) -> (text: String)
        ensures
            text@ == self.text(),
    {
        match self {
            SwitcherError::DeviceNotFound => String::from_str("No keyboard found"),
        }
    }
}

} // verus!
