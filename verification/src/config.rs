//! The settings the switcher is started with.

use vstd::prelude::*;

verus! {

/// Delay between two attempts to acquire a keyboard when none is configured,
/// in milliseconds.
pub fn default_retry_delay() -> (delay: u64)
    ensures
        delay == 1000,
{
    1000
}

/// Number of keystrokes the buffer keeps when none is configured.
pub fn default_buffer_size() -> (size: usize)
    ensures
        size == 100,
{
    100
}

/// Immutable snapshot of the recognised options.
#[derive(Clone, Debug)]
pub struct Config {
    /// Explicit device to capture; bypasses scoring when it exists on disk.
    pub device_path: Option<String>,
    /// Name of the key that fires the retype protocol.
    pub trigger_key: String,
    /// Gap between two events beyond which the buffer counts as stale.
    pub clipboard_timeout_ms: u64,
    /// Names of the keys pressed together to switch the layout, in order.
    pub layout_switch_combo: Vec<String>,
    /// Device-name fragments that exclude a device from selection.
    pub ignored_keywords: Vec<String>,
    /// Largest number of keystrokes the buffer holds.
    pub buffer_size: usize,
    /// Delay between failed attempts to acquire a device, in milliseconds.
    pub retry_delay_ms: u64,
}

} // verus!
