//! Which connections are live, and what the device picker shows for a
//! device after each step of connecting and disconnecting.
//!
//! The caller talks to the audio system and to the picker.  It reports here
//! what came back and is told which text and which buttons to show; the
//! handles of the live connections are kept here on its behalf.

use vstd::prelude::*;
use crate::config::AppConfig;
use crate::registry::ConnectionTable;
use crate::status::{
    DeviceStatusStrings, StatusUpdate, DISPLAY_NONE, DISPLAY_SHOW_DISCONNECT_BUTTON,
    DISPLAY_SHOW_PROGRESS, DISPLAY_SHOW_RETRY_BUTTON,
};
use crate::text::{decimal_text, push_decimal};

verus! {

/// Result of opening a connection: it is open.
pub const OPEN_SUCCESS: i32 = 0;

/// Result of opening a connection: the device did not answer in time.
pub const OPEN_REQUEST_TIMED_OUT: i32 = 1;

/// Result of opening a connection: the system refused.
pub const OPEN_DENIED_BY_SYSTEM: i32 = 2;

/// Result of opening a connection: it failed for a reason that the system
/// does not name.
pub const OPEN_UNKNOWN_FAILURE: i32 = 3;

/// State of a connection: closed.
pub const STATE_CLOSED: i32 = 0;

/// State of a connection: opened.
pub const STATE_OPENED: i32 = 1;

/// What has to be done with the picker when it is set up.
pub struct PickerSetup {
    /// The picker's title.
    pub title: String,
    /// Shown for every device that the system knows, so that nothing is left
    /// of an earlier run.
    pub reset: StatusUpdate,
    /// Whether the picker is then shown and every known device connected.
    pub auto_connect: bool,
}

/// The connection manager: the picker's texts and the live connections.
/// `T` is whatever the caller keeps per connection.
pub struct ConnectionManager<T> {
    strings: DeviceStatusStrings,
    connections: ConnectionTable<T>,
}

impl<T> ConnectionManager<T> {
    /// The live connections, by device identifier.
    pub closed spec fn connections(&self) -> Map<Seq<u16>, T> {
        self.connections@
    }

    /// The texts that the picker shows.
    pub closed spec fn strings(&self) -> DeviceStatusStrings {
        self.strings
    }

    /// The text and the buttons shown once opening a connection has ended
    /// with `status`.
    pub open spec fn open_result(strings: DeviceStatusStrings, status: i32) -> (Seq<char>, u32) {
        if status == OPEN_SUCCESS {
            (strings.connected@, DISPLAY_SHOW_DISCONNECT_BUTTON)
        } else if status == OPEN_REQUEST_TIMED_OUT {
            (strings.timeout@, DISPLAY_SHOW_RETRY_BUTTON)
        } else if status == OPEN_UNKNOWN_FAILURE {
            (strings.not_found@, DISPLAY_SHOW_RETRY_BUTTON)
        } else if status == OPEN_DENIED_BY_SYSTEM {
            (strings.denied_by_system@, DISPLAY_SHOW_RETRY_BUTTON)
        } else {
            (strings.unknown_reason@ + decimal_text(status as int), DISPLAY_SHOW_RETRY_BUTTON)
        }
    }

    /// A manager without connections.
    pub fn new(strings: DeviceStatusStrings) -> (r: Self)
        ensures
            r.strings() == strings,
            r.connections() == Map::<Seq<u16>, T>::empty(),
    {
        ConnectionManager { strings, connections: ConnectionTable::new() }
    }

    /// The number of live connections.
    pub fn len(&self) -> (r: usize)
        ensures
            r == self.connections().len(),
            self.connections().dom().finite(),
    {
        self.connections.len()
    }

    /// Whether a connection to the device is live.
    pub fn is_connected(&self, device_id: &[u16]) -> (r: bool)
        ensures
            r == self.connections().contains_key(device_id@),
    {
        self.connections.contains(device_id)
    }

    /// What setting up the picker asks for: the title, an empty status
    /// without buttons for every known device, and automatic connection
    /// where the configuration asks for it.
    pub fn init_picker(&self, config: &AppConfig) -> (r: PickerSetup)
        ensures
            r.title@ == self.strings().picker_title@,
            r.reset.text@ == Seq::<char>::empty(),
            r.reset.options == DISPLAY_NONE,
            r.auto_connect == config.auto_connect,
    {
        PickerSetup {
            title: self.strings.picker_title.clone(),
            reset: StatusUpdate { text: String::new(), options: DISPLAY_NONE },
            auto_connect: config.auto_connect(),
        }
    }

    /// What the picker shows while a connection is being opened: the
    /// connecting text, a progress indicator and a disconnect button.
    pub fn connecting(&self) -> (r: StatusUpdate)
        ensures
            r.text@ == self.strings().connecting@,
            r.options == DISPLAY_SHOW_PROGRESS | DISPLAY_SHOW_DISCONNECT_BUTTON,
    {
        StatusUpdate {
            text: self.strings.connecting.clone(),
            options: DISPLAY_SHOW_PROGRESS | DISPLAY_SHOW_DISCONNECT_BUTTON,
        }
    }

    /// Takes note of how opening the connection `handle` to `device_id`
    /// ended.  On success the connection is kept, in place of an earlier one
    /// to the same device; otherwise it is dropped and the table stays as it
    /// is.  Returns what the picker shows for the device.
    pub fn connect(&mut self, device_id: Vec<u16>, handle: T, status: i32) -> (r: StatusUpdate)
        ensures
            final(self).strings() == old(self).strings(),
            final(self).connections() == (if status == OPEN_SUCCESS {
                old(self).connections().insert(device_id@, handle)
            } else {
                old(self).connections()
            }),
            (r.text@, r.options) == Self::open_result(old(self).strings(), status),
    {
        if status == OPEN_SUCCESS {
            let _ = self.connections.insert(device_id, handle);
            StatusUpdate {
                text: self.strings.connected.clone(),
                options: DISPLAY_SHOW_DISCONNECT_BUTTON,
            }
        } else if status == OPEN_REQUEST_TIMED_OUT {
            StatusUpdate { text: self.strings.timeout.clone(), options: DISPLAY_SHOW_RETRY_BUTTON }
        } else if status == OPEN_UNKNOWN_FAILURE {
            StatusUpdate {
                text: self.strings.not_found.clone(),
                options: DISPLAY_SHOW_RETRY_BUTTON,
            }
        } else if status == OPEN_DENIED_BY_SYSTEM {
            StatusUpdate {
                text: self.strings.denied_by_system.clone(),
                options: DISPLAY_SHOW_RETRY_BUTTON,
            }
        } else {
            let mut text = self.strings.unknown_reason.clone();
            push_decimal(&mut text, status);
            StatusUpdate { text, options: DISPLAY_SHOW_RETRY_BUTTON }
        }
    }

    /// The user asked to disconnect the device.  Its connection, if one is
    /// live, leaves the table and is handed back to be dropped; the picker
    /// shows the disconnected text without buttons either way.
    pub fn disconnect(&mut self, device_id: &[u16]) -> (r: (Option<T>, StatusUpdate))
        ensures
            final(self).strings() == old(self).strings(),
            final(self).connections() == old(self).connections().remove(device_id@),
            r.0 == (if old(self).connections().contains_key(device_id@) {
                Some(old(self).connections()[device_id@])
            } else {
                None
            }),
            r.1.text@ == old(self).strings().disconnected@,
            r.1.options == DISPLAY_NONE,
    {
        let removed = self.connections.remove(device_id);
        (removed, StatusUpdate { text: self.strings.disconnected.clone(), options: DISPLAY_NONE })
    }

    /// The connection to the device changed its state.  When it closed and
    /// was live here, it leaves the table and is handed back together with
    /// what the picker shows: the disconnected text and a retry button.  Any
    /// other state, and the closing of a connection that is not held, changes
    /// nothing.
    pub fn handle_state(&mut self, device_id: &[u16], state: i32) -> (r: Option<(T, StatusUpdate)>)
        ensures
            final(self).strings() == old(self).strings(),
            final(self).connections() == (if state == STATE_CLOSED {
                old(self).connections().remove(device_id@)
            } else {
                old(self).connections()
            }),
            r.is_some() == (state == STATE_CLOSED && old(self).connections().contains_key(
                device_id@,
            )),
            match r {
                Some((handle, update)) => handle == old(self).connections()[device_id@]
                    && update.text@ == old(self).strings().disconnected@ && update.options
                    == DISPLAY_SHOW_RETRY_BUTTON,
                None => true,
            },
    {
        if state == STATE_CLOSED {
            match self.connections.remove(device_id) {
                Some(handle) => Some(
                    (
                        handle,
                        StatusUpdate {
                            text: self.strings.disconnected.clone(),
                            options: DISPLAY_SHOW_RETRY_BUTTON,
                        },
                    ),
                ),
                None => None,
            }
        } else {
            None
        }
    }
}

} // verus!
