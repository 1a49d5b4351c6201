//! The tray icon: its popup menu and what its events ask for.

use vstd::prelude::*;
use crate::config::{toml_text, AppConfig, AUTO_CONNECT_KEY};

verus! {

/// Mouse event reported by the icon: the right button was released.
pub const WM_RBUTTONUP: u32 = 0x0205;

/// Event reported by the icon: it was selected with mouse or keyboard.
pub const NIN_SELECT: u32 = 0x0400;

/// Menu flag: the item is a text.
pub const MF_STRING: u32 = 0x0000;

/// Menu flag: the item carries no check mark.
pub const MF_UNCHECKED: u32 = 0x0000;

/// Menu flag: the item carries a check mark.
pub const MF_CHECKED: u32 = 0x0008;

/// Menu flag: the item is a separating line.
pub const MF_SEPARATOR: u32 = 0x0800;

/// Icon flag: the callback message is valid.
pub const NIF_MESSAGE: u32 = 0x0001;

/// Icon flag: the icon is valid.
pub const NIF_ICON: u32 = 0x0002;

/// Icon flag: the tooltip text is valid.
pub const NIF_TIP: u32 = 0x0004;

/// Icon flag: the standard tooltip is shown.
pub const NIF_SHOWTIP: u32 = 0x0080;

/// Shell request: add the icon to the tray.
pub const NIM_ADD: u32 = 0;

/// Shell request: remove the icon from the tray.
pub const NIM_DELETE: u32 = 2;

/// Shell request: set the behaviour version of the icon.
pub const NIM_SETVERSION: u32 = 4;

/// The behaviour version that the icon asks for; with it the shell reports
/// `NIN_SELECT`.
pub const NOTIFYICON_VERSION: u32 = 4;

/// The address that opens the system's Bluetooth settings.
pub const BLUETOOTH_SETTINGS_URI: &'static str = "ms-settings:bluetooth";

/// The texts of the popup menu.
#[derive(Debug, Clone)]
pub struct MenuStrings {
    pub connection_list: String,
    pub bluetooth_list: String,
    pub auto_connect: String,
    pub exit: String,
}

impl Default for MenuStrings {
    /// The English texts.
    fn default() -> (r: Self)
        ensures
            r.connection_list@ == "Open Connection List(&C)"@,
            r.bluetooth_list@ == "Add Bluetooth Device(&B)"@,
            r.auto_connect@ == "Auto Connect(&A)"@,
            r.exit@ == "Exit(&X)"@,
    {
        Self {
            connection_list: "Open Connection List(&C)".to_string(),
            bluetooth_list: "Add Bluetooth Device(&B)".to_string(),
            auto_connect: "Auto Connect(&A)".to_string(),
            exit: "Exit(&X)".to_string(),
        }
    }
}

/// One line of the popup menu.  A separating line has no label.
#[derive(Debug, Clone)]
pub struct MenuItem {
    pub flags: u32,
    pub id: u32,
    pub label: Option<String>,
}

impl MenuItem {
    /// Whether this is the text item with the given flags, command and
    /// label.
    pub open spec fn is_text(&self, flags: u32, id: u32, label: Seq<char>) -> bool {
        &&& self.flags == flags
        &&& self.id == id
        &&& self.label.is_some()
        &&& self.label.unwrap()@ == label
    }

    /// Whether this is a separating line.
    pub open spec fn is_separator(&self) -> bool {
        &&& self.flags == MF_SEPARATOR
        &&& self.id == 0
        &&& self.label.is_none()
    }
}

/// What an event of the icon asks for.
#[derive(Debug, Clone)]
pub enum IconAction {
    /// Pop up this menu at the cursor.
    ShowMenu(Vec<MenuItem>),
    /// Show the device picker next to the icon.
    ShowConnectionList,
    /// Nothing.
    Ignore,
}

/// What a command of the popup menu asks for.
#[derive(Debug, Clone)]
pub enum CommandAction {
    /// Open the system's Bluetooth settings.
    OpenBluetoothSettings,
    /// Show the device picker next to the icon.
    ShowConnectionList,
    /// The preference was toggled: write this text to the configuration
    /// file.  `None` where the encoder gave no text.
    SaveConfig(Option<String>),
    /// Leave the message loop.
    Quit,
    /// Nothing.
    Ignore,
}

/// The tray icon.
#[derive(Debug, Clone)]
pub struct NotifyIcon {
    pub callback_message: u32,
    pub menu_str: MenuStrings,
}

impl NotifyIcon {
    /// Menu command: leave the program.
    pub const IDM_EXIT: u32 = 1001;

    /// Menu command: show the connection list.
    pub const IDM_CONNECTION: u32 = 1002;

    /// Menu command: open the Bluetooth settings.
    pub const IDM_DEVICES: u32 = 1003;

    /// Menu command: toggle automatic connection.
    pub const IDM_AUTO_CONNECT: u32 = 1004;

    /// An icon that reports its events with `callback_message` and labels
    /// its menu with `strings`.
    pub fn new(callback_message: u32, strings: MenuStrings) -> (r: Self)
        ensures
            r.callback_message == callback_message,
            r.menu_str == strings,
    {
        NotifyIcon { callback_message, menu_str: strings }
    }

    /// The flags with which the icon is registered: icon, callback message
    /// and tooltip are valid, and the standard tooltip is shown.
    pub fn flags(&self) -> (r: u32)
        ensures
            r == NIF_ICON | NIF_MESSAGE | NIF_TIP | NIF_SHOWTIP,
            r == 0x87,
    {
        assert(NIF_ICON | NIF_MESSAGE | NIF_TIP | NIF_SHOWTIP == 0x87) by (bit_vector);
        NIF_ICON | NIF_MESSAGE | NIF_TIP | NIF_SHOWTIP
    }

    /// Whether `items` is the popup menu for these texts: connection list,
    /// Bluetooth settings, automatic connection with its check mark, a
    /// separating line, exit.
    pub open spec fn is_menu(strings: MenuStrings, checked: bool, items: Seq<MenuItem>) -> bool {
        &&& items.len() == 5
        &&& items[0].is_text(MF_STRING, Self::IDM_CONNECTION, strings.connection_list@)
        &&& items[1].is_text(MF_STRING, Self::IDM_DEVICES, strings.bluetooth_list@)
        &&& items[2].is_text(
            if checked {
                MF_CHECKED
            } else {
                MF_UNCHECKED
            },
            Self::IDM_AUTO_CONNECT,
            strings.auto_connect@,
        )
        &&& items[3].is_separator()
        &&& items[4].is_text(MF_STRING, Self::IDM_EXIT, strings.exit@)
    }

    /// The lines of the popup menu, top to bottom.  The line for automatic
    /// connection is checked exactly when the preference is on.
    pub fn show_menu(&self, config: &AppConfig) -> (r: Vec<MenuItem>)
        ensures
            Self::is_menu(self.menu_str, config.auto_connect, r@),
    {
        let checked = if config.auto_connect() {
            MF_CHECKED
        } else {
            MF_UNCHECKED
        };
        assert(MF_STRING | MF_CHECKED == MF_CHECKED) by (bit_vector);
        assert(MF_STRING | MF_UNCHECKED == MF_UNCHECKED) by (bit_vector);
        let mut items: Vec<MenuItem> = Vec::new();
        items.push(
            MenuItem {
                flags: MF_STRING,
                id: Self::IDM_CONNECTION,
                label: Some(self.menu_str.connection_list.clone()),
            },
        );
        items.push(
            MenuItem {
                flags: MF_STRING,
                id: Self::IDM_DEVICES,
                label: Some(self.menu_str.bluetooth_list.clone()),
            },
        );
        items.push(
            MenuItem {
                flags: MF_STRING | checked,
                id: Self::IDM_AUTO_CONNECT,
                label: Some(self.menu_str.auto_connect.clone()),
            },
        );
        items.push(MenuItem { flags: MF_SEPARATOR, id: 0, label: None });
        items.push(
            MenuItem {
                flags: MF_STRING,
                id: Self::IDM_EXIT,
                label: Some(self.menu_str.exit.clone()),
            },
        );
        items
    }

    /// The shell requests that put the icon into the tray, in order: add it,
    /// then set its behaviour version.
    pub fn add(&self) -> (r: Vec<u32>)
        ensures
            r@ == seq![NIM_ADD, NIM_SETVERSION],
    {
        let mut requests: Vec<u32> = Vec::new();
        requests.push(NIM_ADD);
        requests.push(NIM_SETVERSION);
        assert(requests@ =~= seq![NIM_ADD, NIM_SETVERSION]);
        requests
    }

    /// The shell request that takes the icon out of the tray.
    pub fn delete(&self) -> (r: Vec<u32>)
        ensures
            r@ == seq![NIM_DELETE],
    {
        let mut requests: Vec<u32> = Vec::new();
        requests.push(NIM_DELETE);
        assert(requests@ =~= seq![NIM_DELETE]);
        requests
    }

    /// Whether `action` is what the event `message` asks for.
    pub open spec fn answers_message(
        &self,
        message: u32,
        config: AppConfig,
        action: IconAction,
    ) -> bool {
        match action {
            IconAction::ShowMenu(items) => message == WM_RBUTTONUP && Self::is_menu(
                self.menu_str,
                config.auto_connect,
                items@,
            ),
            IconAction::ShowConnectionList => message == NIN_SELECT,
            IconAction::Ignore => message != WM_RBUTTONUP && message != NIN_SELECT,
        }
    }

    /// What an event of the icon asks for: the release of the right mouse
    /// button pops up the menu, a selection shows the connection list, and
    /// every other event is ignored.
    pub fn handle_message(&self, message: u32, config: &AppConfig) -> (r: IconAction)
        ensures
            self.answers_message(message, *config, r),
    {
        if message == WM_RBUTTONUP {
            IconAction::ShowMenu(self.show_menu(config))
        } else if message == NIN_SELECT {
            IconAction::ShowConnectionList
        } else {
            IconAction::Ignore
        }
    }

    /// Whether `text` is what the encoder gives for the preference `value`.
    pub open spec fn is_saved(value: bool, text: Option<String>) -> bool {
        match text {
            Some(t) => toml_text(AUTO_CONNECT_KEY@, value) == Some(t@),
            None => toml_text(AUTO_CONNECT_KEY@, value).is_none(),
        }
    }

    /// Whether `action` and the configuration `after` are what the command
    /// `message_id` makes of the configuration `before`.
    pub open spec fn answers_command(
        message_id: u32,
        before: AppConfig,
        after: AppConfig,
        action: CommandAction,
    ) -> bool {
        &&& after.file_path == before.file_path
        &&& after.auto_connect == (if message_id == Self::IDM_AUTO_CONNECT {
            !before.auto_connect
        } else {
            before.auto_connect
        })
        &&& match action {
            CommandAction::OpenBluetoothSettings => message_id == Self::IDM_DEVICES,
            CommandAction::ShowConnectionList => message_id == Self::IDM_CONNECTION,
            CommandAction::SaveConfig(text) => message_id == Self::IDM_AUTO_CONNECT
                && Self::is_saved(!before.auto_connect, text),
            CommandAction::Quit => message_id == Self::IDM_EXIT,
            CommandAction::Ignore => message_id != Self::IDM_DEVICES && message_id
                != Self::IDM_CONNECTION && message_id != Self::IDM_AUTO_CONNECT && message_id
                != Self::IDM_EXIT,
        }
    }

    /// What a command of the popup menu asks for.  The command for
    /// automatic connection toggles the preference in `config` and returns
    /// the text to save; no other command touches `config`.
    pub fn handle_command(&self, message_id: u32, config: &mut AppConfig) -> (r: CommandAction)
        ensures
            Self::answers_command(message_id, *old(config), *final(config), r),
    {
        if message_id == Self::IDM_DEVICES {
            CommandAction::OpenBluetoothSettings
        } else if message_id == Self::IDM_CONNECTION {
            CommandAction::ShowConnectionList
        } else if message_id == Self::IDM_AUTO_CONNECT {
            let auto_connect = config.auto_connect();
            CommandAction::SaveConfig(config.set_auto_connect(!auto_connect))
        } else if message_id == Self::IDM_EXIT {
            CommandAction::Quit
        } else {
            CommandAction::Ignore
        }
    }
}

} // verus!
