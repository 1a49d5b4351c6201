//! The hidden window behind the tray icon: what each window message asks
//! for.

use vstd::prelude::*;
use crate::config::AppConfig;
use crate::notify_icon::{CommandAction, IconAction, NotifyIcon};

verus! {

/// Window message: the window is being created.
pub const WM_CREATE: u32 = 0x0001;

/// Window message: the window is being destroyed.
pub const WM_DESTROY: u32 = 0x0002;

/// Window message: a menu command was chosen.
pub const WM_COMMAND: u32 = 0x0111;

/// The first message number that a program may use for itself.
pub const WM_USER: u32 = 0x0400;

/// How the program starts.
#[derive(Debug, Clone, Copy, PartialEq, Eq)]
pub enum Launch {
    /// Another instance is running: send its window this message and leave.
    Activate(u32),
    /// No other instance is running: create the window and run the message
    /// loop.
    MainLoop,
}

/// What a window message asks for.
#[derive(Debug, Clone)]
pub enum WindowAction {
    /// The window was created: create the tray icon, add it to the tray and
    /// attach it; then let the system handle the message.
    Create,
    /// Remove the tray icon and leave the message loop.
    Shutdown,
    /// The tray icon reported an event that asks for this.
    Tray(IconAction),
    /// Show the device picker at the corner of the screen.
    ShowPicker,
    /// The popup menu sent a command that asks for this.
    Command(CommandAction),
    /// The taskbar was created anew: add the tray icon again.
    RestoreIcon,
    /// Let the system handle the message.
    Default,
}

/// The low 32 bits of a message's second parameter: the event that the
/// tray icon reports.
pub open spec fn icon_event(lparam: isize) -> u32 {
    lparam as u32
}

/// The low 16 bits of a message's first parameter: the menu command.
pub open spec fn command_id(wparam: usize) -> u32 {
    (wparam & 0xffff) as u32
}

/// The application: its preferences, its tray icon once the window exists,
/// and the number of the message by which the system announces a new
/// taskbar.
#[derive(Debug)]
pub struct Application {
    pub config: AppConfig,
    pub notify_icon: Option<NotifyIcon>,
    pub taskbar_created: u32,
}

impl Application {
    /// The message by which the tray icon reports its events.
    pub const WM_NOTIFYICON: u32 = 0x0401;

    /// The message by which a second instance asks the first to show the
    /// device picker.
    pub const WM_SHOW_PICKER: u32 = 0x0402;

    /// An application without a window.
    pub fn new(config: AppConfig, taskbar_created: u32) -> (r: Self)
        ensures
            r.config == config,
            r.notify_icon.is_none(),
            r.taskbar_created == taskbar_created,
    {
        Application { config, notify_icon: None, taskbar_created }
    }

    /// How to start, given whether the window of a running instance was
    /// found: that instance is asked to show its picker, or else this one
    /// runs the message loop.
    pub fn run(found_existing: bool) -> (r: Launch)
        ensures
            r == (if found_existing {
                Launch::Activate(Self::WM_SHOW_PICKER)
            } else {
                Launch::MainLoop
            }),
    {
        if found_existing {
            Launch::Activate(Self::WM_SHOW_PICKER)
        } else {
            Launch::MainLoop
        }
    }

    /// Attaches the tray icon, once the window exists.
    pub fn attach(&mut self, notify_icon: NotifyIcon)
        ensures
            final(self).notify_icon == Some(notify_icon),
            final(self).config == old(self).config,
            final(self).taskbar_created == old(self).taskbar_created,
    {
        self.notify_icon = Some(notify_icon);
    }

    /// Whether the application acts on `message` itself; every other
    /// message is left to the system.
    pub open spec fn handles(&self, message: u32) -> bool {
        ||| message == WM_DESTROY
        ||| message == Self::WM_NOTIFYICON
        ||| message == Self::WM_SHOW_PICKER
        ||| message == WM_COMMAND
        ||| message == self.taskbar_created
    }

    /// Whether the application acts on `message` itself.
    pub fn handles_message(&self, message: u32) -> (r: bool)
        ensures
            r == self.handles(message),
    {
        message == WM_DESTROY || message == Self::WM_NOTIFYICON || message == Self::WM_SHOW_PICKER
            || message == WM_COMMAND || message == self.taskbar_created
    }

    /// Whether `action` is what `message` asks for, where `before` is the
    /// application when the message arrives and `self` the application
    /// afterwards.
    pub open spec fn answers(
        &self,
        before: Application,
        message: u32,
        wparam: usize,
        lparam: isize,
        action: WindowAction,
    ) -> bool {
        &&& self.notify_icon == before.notify_icon
        &&& self.taskbar_created == before.taskbar_created
        &&& !(message == WM_COMMAND) ==> self.config == before.config
        &&& match action {
            WindowAction::Create => false,
            WindowAction::Shutdown => message == WM_DESTROY,
            WindowAction::Tray(event) => message == Self::WM_NOTIFYICON
                && before.notify_icon.is_some() && before.notify_icon.unwrap().answers_message(
                icon_event(lparam),
                before.config,
                event,
            ),
            WindowAction::ShowPicker => message == Self::WM_SHOW_PICKER,
            WindowAction::Command(command) => message == WM_COMMAND && NotifyIcon::answers_command(
                command_id(wparam),
                before.config,
                self.config,
                command,
            ),
            WindowAction::RestoreIcon => message == before.taskbar_created && message != WM_DESTROY
                && message != Self::WM_NOTIFYICON && message != Self::WM_SHOW_PICKER && message
                != WM_COMMAND,
            WindowAction::Default => !before.handles(message),
        }
    }

    /// What a window message asks for.  The window's own messages come
    /// first, then the announcement of a new taskbar; all others are left
    /// to the system.
    pub fn handle_message(&mut self, message: u32, wparam: usize, lparam: isize) -> (r:
        WindowAction)
        requires
            old(self).handles(message) ==> old(self).notify_icon.is_some(),
        ensures
            final(self).answers(*old(self), message, wparam, lparam, r),
    {
        if message == WM_DESTROY {
            WindowAction::Shutdown
        } else if message == Self::WM_NOTIFYICON {
            let event = #[verifier::truncate] (lparam as u32);
            match &self.notify_icon {
                Some(icon) => WindowAction::Tray(icon.handle_message(event, &self.config)),
                None => WindowAction::Default,
            }
        } else if message == Self::WM_SHOW_PICKER {
            WindowAction::ShowPicker
        } else if message == WM_COMMAND {
            assert(wparam & 0xffff <= 0xffff) by (bit_vector);
            let id = (wparam & 0xffff) as u32;
            match &self.notify_icon {
                Some(icon) => WindowAction::Command(icon.handle_command(id, &mut self.config)),
                None => WindowAction::Default,
            }
        } else if message == self.taskbar_created {
            WindowAction::RestoreIcon
        } else {
            WindowAction::Default
        }
    }

    /// What the window procedure does with a message: the creation of the
    /// window asks for the tray icon, every other message goes to
    /// `handle_message`.
    pub fn wndproc(&mut self, message: u32, wparam: usize, lparam: isize) -> (r: WindowAction)
        requires
            message != WM_CREATE && old(self).handles(message) ==> old(self).notify_icon.is_some(),
        ensures
            message == WM_CREATE ==> r is Create && *final(self) == *old(self),
            message != WM_CREATE ==> final(self).answers(*old(self), message, wparam, lparam, r),
    {
        if message == WM_CREATE {
            WindowAction::Create
        } else {
            self.handle_message(message, wparam, lparam)
        }
    }
}

} // verus!
