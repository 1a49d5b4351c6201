use lit_sink_nexus::application::{
    Application, Launch, WindowAction, WM_COMMAND, WM_CREATE, WM_DESTROY, WM_USER,
};
use lit_sink_nexus::config::AppConfig;
use lit_sink_nexus::notify_icon::{CommandAction, IconAction, MenuStrings, NotifyIcon};

const TASKBAR_CREATED: u32 = 0xC123;

fn application() -> Application {
    let config = AppConfig::parse_or_default("config.toml".to_string(), None);
    let mut app = Application::new(config, TASKBAR_CREATED);
    app.attach(NotifyIcon::new(Application::WM_NOTIFYICON, MenuStrings::default()));
    app
}

#[test]
fn message_numbers() {
    assert_eq!(WM_CREATE, 1);
    assert_eq!(WM_DESTROY, 2);
    assert_eq!(WM_COMMAND, 273);
    assert_eq!(WM_USER, 1024);
    assert_eq!(Application::WM_NOTIFYICON, WM_USER + 1);
    assert_eq!(Application::WM_SHOW_PICKER, WM_USER + 2);
}

#[test]
fn new_application_has_no_icon() {
    let config = AppConfig::parse_or_default("config.toml".to_string(), None);
    let app = Application::new(config, 5);
    assert!(app.notify_icon.is_none());
    assert_eq!(app.taskbar_created, 5);
    assert!(app.config.auto_connect());
}

#[test]
fn run_activates_a_running_instance() {
    assert_eq!(Application::run(true), Launch::Activate(0x0402));
    assert_eq!(Application::run(false), Launch::MainLoop);
}

#[test]
fn destroy_shuts_down() {
    assert!(matches!(application().handle_message(WM_DESTROY, 0, 0), WindowAction::Shutdown));
}

#[test]
fn icon_events_go_to_the_icon() {
    let mut app = application();
    match app.handle_message(Application::WM_NOTIFYICON, 0, 0x0205) {
        WindowAction::Tray(IconAction::ShowMenu(items)) => assert_eq!(items.len(), 5),
        other => panic!("{:?}", other),
    }
    assert!(matches!(
        app.handle_message(Application::WM_NOTIFYICON, 0, 0x0400),
        WindowAction::Tray(IconAction::ShowConnectionList)
    ));
    assert!(matches!(
        app.handle_message(Application::WM_NOTIFYICON, 0, 0x0200),
        WindowAction::Tray(IconAction::Ignore)
    ));
}

#[test]
fn icon_event_is_the_low_half_of_the_parameter() {
    let mut app = application();
    let lparam: isize = ((7i64 << 32) | 0x0400) as isize;
    assert!(matches!(
        app.handle_message(Application::WM_NOTIFYICON, 0, lparam),
        WindowAction::Tray(IconAction::ShowConnectionList)
    ));
    assert!(matches!(
        app.handle_message(Application::WM_NOTIFYICON, 0, -1),
        WindowAction::Tray(IconAction::Ignore)
    ));
}

#[test]
fn show_picker_message() {
    assert!(matches!(
        application().handle_message(Application::WM_SHOW_PICKER, 0, 0),
        WindowAction::ShowPicker
    ));
}

#[test]
fn commands_go_to_the_menu() {
    let mut app = application();
    assert!(matches!(
        app.handle_message(WM_COMMAND, 1001, 0),
        WindowAction::Command(CommandAction::Quit)
    ));
    assert!(matches!(
        app.handle_message(WM_COMMAND, 1002, 0),
        WindowAction::Command(CommandAction::ShowConnectionList)
    ));
    assert!(matches!(
        app.handle_message(WM_COMMAND, 1003, 0),
        WindowAction::Command(CommandAction::OpenBluetoothSettings)
    ));
    assert!(matches!(
        app.handle_message(WM_COMMAND, 7, 0),
        WindowAction::Command(CommandAction::Ignore)
    ));
}

#[test]
fn command_is_the_low_word_of_the_parameter() {
    let mut app = application();
    assert!(matches!(
        app.handle_message(WM_COMMAND, 0x0001_0000 + 1001, 0),
        WindowAction::Command(CommandAction::Quit)
    ));
}

#[test]
fn auto_connect_command_changes_the_configuration() {
    let mut app = application();
    assert!(app.config.auto_connect());
    match app.handle_message(WM_COMMAND, 1004, 0) {
        WindowAction::Command(CommandAction::SaveConfig(text)) => {
            assert_eq!(text.unwrap(), "auto_connect = false\n")
        }
        other => panic!("{:?}", other),
    }
    assert!(!app.config.auto_connect());
    match app.handle_message(Application::WM_NOTIFYICON, 0, 0x0205) {
        WindowAction::Tray(IconAction::ShowMenu(items)) => assert_eq!(items[2].flags, 0),
        other => panic!("{:?}", other),
    }
}

#[test]
fn new_taskbar_restores_the_icon() {
    assert!(matches!(
        application().handle_message(TASKBAR_CREATED, 0, 0),
        WindowAction::RestoreIcon
    ));
}

#[test]
fn own_messages_come_before_the_taskbar_message() {
    let config = AppConfig::parse_or_default("config.toml".to_string(), None);
    let mut app = Application::new(config, WM_DESTROY);
    app.attach(NotifyIcon::new(Application::WM_NOTIFYICON, MenuStrings::default()));
    assert!(matches!(app.handle_message(WM_DESTROY, 0, 0), WindowAction::Shutdown));
}

#[test]
fn other_messages_are_left_to_the_system() {
    let mut app = application();
    for message in [0u32, 3, 5, 0x000F, 0x0100, 0x0400, 0x0403, 0xC000] {
        assert!(matches!(app.handle_message(message, 1, 2), WindowAction::Default));
    }
}

#[test]
fn other_messages_need_no_icon() {
    let config = AppConfig::parse_or_default("config.toml".to_string(), None);
    let mut app = Application::new(config, TASKBAR_CREATED);
    assert!(matches!(app.handle_message(0x000F, 0, 0), WindowAction::Default));
}

#[test]
fn wndproc_asks_for_the_icon_on_creation() {
    let config = AppConfig::parse_or_default("config.toml".to_string(), None);
    let mut app = Application::new(config, TASKBAR_CREATED);
    assert!(matches!(app.wndproc(WM_CREATE, 0, 0), WindowAction::Create));
    assert!(app.notify_icon.is_none());
}

#[test]
fn wndproc_hands_other_messages_on() {
    let mut app = application();
    assert!(matches!(app.wndproc(WM_DESTROY, 0, 0), WindowAction::Shutdown));
    assert!(matches!(app.wndproc(0x000F, 0, 0), WindowAction::Default));
    assert!(matches!(
        app.wndproc(WM_COMMAND, 1001, 0),
        WindowAction::Command(CommandAction::Quit)
    ));
}
