use lit_sink_nexus::config::AppConfig;
use lit_sink_nexus::connection_manager::{
    ConnectionManager, OPEN_DENIED_BY_SYSTEM, OPEN_REQUEST_TIMED_OUT, OPEN_SUCCESS,
    OPEN_UNKNOWN_FAILURE, STATE_CLOSED, STATE_OPENED,
};
use lit_sink_nexus::status::{
    DeviceStatusStrings, DISPLAY_NONE, DISPLAY_SHOW_DISCONNECT_BUTTON, DISPLAY_SHOW_PROGRESS,
    DISPLAY_SHOW_RETRY_BUTTON,
};

fn device(text: &str) -> Vec<u16> {
    text.encode_utf16().collect()
}

fn manager() -> ConnectionManager<u32> {
    ConnectionManager::new(DeviceStatusStrings::default())
}

#[test]
fn default_status_strings() {
    let s = DeviceStatusStrings::default();
    assert_eq!(s.picker_title, "A2DP Sink: Click to select a source device ");
    assert_eq!(s.connecting, "Connecting");
    assert_eq!(s.connected, "Connected");
    assert_eq!(s.timeout, "Connection Timeout");
    assert_eq!(s.denied_by_system, "Connection Denied by System");
    assert_eq!(s.not_found, "Device not found");
    assert_eq!(s.unknown_reason, "Unknown Reason");
    assert_eq!(s.disconnected, "Disconnected");
}

#[test]
fn display_option_bits() {
    assert_eq!(DISPLAY_NONE, 0);
    assert_eq!(DISPLAY_SHOW_PROGRESS, 1);
    assert_eq!(DISPLAY_SHOW_DISCONNECT_BUTTON, 2);
    assert_eq!(DISPLAY_SHOW_RETRY_BUTTON, 4);
}

#[test]
fn status_codes() {
    assert_eq!(OPEN_SUCCESS, 0);
    assert_eq!(OPEN_REQUEST_TIMED_OUT, 1);
    assert_eq!(OPEN_DENIED_BY_SYSTEM, 2);
    assert_eq!(OPEN_UNKNOWN_FAILURE, 3);
    assert_eq!(STATE_CLOSED, 0);
    assert_eq!(STATE_OPENED, 1);
}

#[test]
fn new_manager_holds_nothing() {
    let m = manager();
    assert_eq!(m.len(), 0);
    assert!(!m.is_connected(&device("a")));
}

#[test]
fn init_picker_follows_the_preference() {
    let m = manager();
    let on = AppConfig::parse_or_default("c.toml".to_string(), None);
    let setup = m.init_picker(&on);
    assert_eq!(setup.title, "A2DP Sink: Click to select a source device ");
    assert_eq!(setup.reset.text, "");
    assert_eq!(setup.reset.options, 0);
    assert!(setup.auto_connect);

    let off =
        AppConfig::parse_or_default("c.toml".to_string(), Some("auto_connect = false".to_string()));
    assert!(!m.init_picker(&off).auto_connect);
}

#[test]
fn connecting_shows_progress_and_disconnect() {
    let update = manager().connecting();
    assert_eq!(update.text, "Connecting");
    assert_eq!(update.options, 3);
}

#[test]
fn connect_success_keeps_the_connection() {
    let mut m = manager();
    let update = m.connect(device("a"), 7, OPEN_SUCCESS);
    assert_eq!(update.text, "Connected");
    assert_eq!(update.options, DISPLAY_SHOW_DISCONNECT_BUTTON);
    assert!(m.is_connected(&device("a")));
    assert_eq!(m.len(), 1);
}

#[test]
fn connect_again_replaces_the_connection() {
    let mut m = manager();
    m.connect(device("a"), 7, OPEN_SUCCESS);
    m.connect(device("a"), 8, OPEN_SUCCESS);
    assert_eq!(m.len(), 1);
    let (handle, _) = m.disconnect(&device("a"));
    assert_eq!(handle, Some(8));
}

#[test]
fn connect_timeout() {
    let mut m = manager();
    let update = m.connect(device("a"), 7, OPEN_REQUEST_TIMED_OUT);
    assert_eq!(update.text, "Connection Timeout");
    assert_eq!(update.options, DISPLAY_SHOW_RETRY_BUTTON);
    assert_eq!(m.len(), 0);
}

#[test]
fn connect_unknown_failure_reports_device_not_found() {
    let mut m = manager();
    let update = m.connect(device("a"), 7, OPEN_UNKNOWN_FAILURE);
    assert_eq!(update.text, "Device not found");
    assert_eq!(update.options, DISPLAY_SHOW_RETRY_BUTTON);
    assert_eq!(m.len(), 0);
}

#[test]
fn connect_denied_by_system() {
    let mut m = manager();
    let update = m.connect(device("a"), 7, OPEN_DENIED_BY_SYSTEM);
    assert_eq!(update.text, "Connection Denied by System");
    assert_eq!(update.options, DISPLAY_SHOW_RETRY_BUTTON);
    assert_eq!(m.len(), 0);
}

#[test]
fn connect_other_status_appends_the_code() {
    let mut m = manager();
    let update = m.connect(device("a"), 7, 4);
    assert_eq!(update.text, "Unknown Reason4");
    assert_eq!(update.options, DISPLAY_SHOW_RETRY_BUTTON);
    let update = m.connect(device("a"), 7, -12);
    assert_eq!(update.text, "Unknown Reason-12");
    let update = m.connect(device("a"), 7, i32::MIN);
    assert_eq!(update.text, "Unknown Reason-2147483648");
    assert_eq!(m.len(), 0);
}

#[test]
fn failed_connect_leaves_a_live_connection_alone() {
    let mut m = manager();
    m.connect(device("a"), 7, OPEN_SUCCESS);
    m.connect(device("a"), 9, OPEN_REQUEST_TIMED_OUT);
    assert!(m.is_connected(&device("a")));
    let (handle, _) = m.disconnect(&device("a"));
    assert_eq!(handle, Some(7));
}

#[test]
fn disconnect_removes_and_shows_no_button() {
    let mut m = manager();
    m.connect(device("a"), 7, OPEN_SUCCESS);
    m.connect(device("b"), 8, OPEN_SUCCESS);
    let (handle, update) = m.disconnect(&device("a"));
    assert_eq!(handle, Some(7));
    assert_eq!(update.text, "Disconnected");
    assert_eq!(update.options, DISPLAY_NONE);
    assert!(!m.is_connected(&device("a")));
    assert!(m.is_connected(&device("b")));
}

#[test]
fn disconnect_of_an_unknown_device_still_shows_disconnected() {
    let mut m = manager();
    let (handle, update) = m.disconnect(&device("a"));
    assert_eq!(handle, None);
    assert_eq!(update.text, "Disconnected");
    assert_eq!(update.options, DISPLAY_NONE);
}

#[test]
fn closed_state_removes_and_offers_retry() {
    let mut m = manager();
    m.connect(device("a"), 7, OPEN_SUCCESS);
    let (handle, update) = m.handle_state(&device("a"), STATE_CLOSED).unwrap();
    assert_eq!(handle, 7);
    assert_eq!(update.text, "Disconnected");
    assert_eq!(update.options, DISPLAY_SHOW_RETRY_BUTTON);
    assert_eq!(m.len(), 0);
}

#[test]
fn closed_state_of_an_unknown_device_does_nothing() {
    let mut m = manager();
    m.connect(device("a"), 7, OPEN_SUCCESS);
    assert!(m.handle_state(&device("b"), STATE_CLOSED).is_none());
    assert_eq!(m.len(), 1);
}

#[test]
fn closing_twice_reports_once() {
    let mut m = manager();
    m.connect(device("a"), 7, OPEN_SUCCESS);
    assert!(m.handle_state(&device("a"), STATE_CLOSED).is_some());
    assert!(m.handle_state(&device("a"), STATE_CLOSED).is_none());
}

#[test]
fn other_states_change_nothing() {
    let mut m = manager();
    m.connect(device("a"), 7, OPEN_SUCCESS);
    assert!(m.handle_state(&device("a"), STATE_OPENED).is_none());
    assert!(m.handle_state(&device("a"), 2).is_none());
    assert!(m.handle_state(&device("a"), -1).is_none());
    assert!(m.is_connected(&device("a")));
}

#[test]
fn custom_strings_are_used() {
    let strings = DeviceStatusStrings {
        picker_title: "T".to_string(),
        connecting: "c1".to_string(),
        connected: "c2".to_string(),
        timeout: "c3".to_string(),
        denied_by_system: "c4".to_string(),
        not_found: "c5".to_string(),
        unknown_reason: "c6:".to_string(),
        disconnected: "c7".to_string(),
    };
    let mut m: ConnectionManager<u8> = ConnectionManager::new(strings);
    assert_eq!(m.connecting().text, "c1");
    assert_eq!(m.connect(device("a"), 0, 0).text, "c2");
    assert_eq!(m.connect(device("a"), 0, 1).text, "c3");
    assert_eq!(m.connect(device("a"), 0, 2).text, "c4");
    assert_eq!(m.connect(device("a"), 0, 3).text, "c5");
    assert_eq!(m.connect(device("a"), 0, 77).text, "c6:77");
    assert_eq!(m.disconnect(&device("a")).1.text, "c7");
}
