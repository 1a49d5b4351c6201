//! Texts and display flags that the device picker shows next to a device.

use vstd::prelude::*;

verus! {

/// Display option: no button and no progress indicator.
pub const DISPLAY_NONE: u32 = 0;

/// Display option: a progress indicator is shown next to the device.
pub const DISPLAY_SHOW_PROGRESS: u32 = 1;

/// Display option: the device offers a disconnect button.
pub const DISPLAY_SHOW_DISCONNECT_BUTTON: u32 = 2;

/// Display option: the device offers a retry button.
pub const DISPLAY_SHOW_RETRY_BUTTON: u32 = 4;

/// The texts shown by the device picker, one per situation.
#[derive(Debug, Clone)]
pub struct DeviceStatusStrings {
    pub picker_title: String,
    pub connecting: String,
    pub connected: String,
    pub timeout: String,
    pub denied_by_system: String,
    pub not_found: String,
    pub unknown_reason: String,
    pub disconnected: String,
}

impl Default for DeviceStatusStrings {
    /// The English texts.
    fn default() -> (r: Self)
        ensures
            r.picker_title@ == "A2DP Sink: Click to select a source device "@,
            r.connecting@ == "Connecting"@,
            r.connected@ == "Connected"@,
            r.timeout@ == "Connection Timeout"@,
            r.denied_by_system@ == "Connection Denied by System"@,
            r.not_found@ == "Device not found"@,
            r.unknown_reason@ == "Unknown Reason"@,
            r.disconnected@ == "Disconnected"@,
    {
        Self {
            picker_title: "A2DP Sink: Click to select a source device ".to_string(),
            connecting: "Connecting".to_string(),
            connected: "Connected".to_string(),
            timeout: "Connection Timeout".to_string(),
            denied_by_system: "Connection Denied by System".to_string(),
            not_found: "Device not found".to_string(),
            unknown_reason: "Unknown Reason".to_string(),
            disconnected: "Disconnected".to_string(),
        }
    }
}

/// What the picker is told to show for one device: a text and a set of
/// display option bits.
#[derive(Debug, Clone)]
pub struct StatusUpdate {
    pub text: String,
    pub options: u32,
}

} // verus!
