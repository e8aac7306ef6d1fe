//! What the window shows and how it reacts: the state behind it, the
//! messages that reach it, and the commands it gives to the window system.
//!
//! Drawing the window and delivering the messages is left to the program
//! that uses the library. The decisions are taken here.

use crate::watcher::BackendMessage;
use vstd::prelude::*;

verus! {

/// The name that the program shows in its title and its tray icon.
pub const APPLICATION_DISPLAY_NAME: &'static str = "no-hidden-extensions";

/// What the window says while file extensions are hidden.
pub const HIDDEN_WARNING: &'static str =
    "Warning - file extensions are hidden in Windows Explorer. This means a higher risk of falling for a phishing attack.";

/// What the window says while file extensions are shown.
pub const VISIBLE_NOTICE: &'static str =
    "File extensions are visible in Windows Explorer, which is great! It is harder for you to fall for a phishing attack.";

/// Notice of what the user asked for.
#[derive(Clone, Copy, Debug, PartialEq, Eq, Structural)]
pub enum UserMessage {
    RunAtStartup,
    DontRunAtStartup,
    HideFileExtensions,
}

/// Notice of a change in how the window is shown.
#[derive(Clone, Copy, Debug, PartialEq, Eq, Structural)]
pub enum UiMessage {
    MinimizeToTray,
    RestoreFromTray,
}

/// A message to the window.
#[derive(Clone, Copy, Debug, PartialEq, Eq, Structural)]
pub enum Message {
    User(UserMessage),
    Backend(BackendMessage),
    Ui(UiMessage),
}

/// Something for the window system to do with the window.
#[derive(Clone, Copy, Debug, PartialEq, Eq, Structural)]
pub enum WindowCommand {
    /// Show the window as an ordinary window.
    ShowWindowed,
    /// Hide the window; the tray icon stays.
    Hide,
    /// Undo a minimisation.
    Unminimize,
    /// Ask for the user's attention, without urgency.
    RequestAttention,
    /// Give the window the input focus.
    GainFocus,
}

/// An operation on the machine that a message of the user calls for.
#[derive(Clone, Copy, Debug, PartialEq, Eq, Structural)]
pub enum Operation {
    RunThisProgramAtStartup,
    DontRunThisProgramAtStartup,
    TurnOffFileExtensionHiding,
}

/// The state behind the window.
#[derive(Clone, Copy, Debug, PartialEq, Eq, Structural)]
pub struct NoHiddenExtensionsState {
    pub run_at_startup: bool,
    pub file_extensions_hidden: bool,
}

/// The commands that bring the window before the user.
pub open spec fn spec_commands_which_notify_user() -> Seq<WindowCommand> {
    seq![
        WindowCommand::ShowWindowed,
        WindowCommand::Unminimize,
        WindowCommand::RequestAttention,
        WindowCommand::GainFocus,
    ]
}

/// The commands that bring the window before the user: it is shown,
/// restored, flagged for attention and focused, in this order.
pub fn get_commands_which_notify_user() -> (commands: Vec<WindowCommand>)
    ensures
        commands@ == spec_commands_which_notify_user(),
{
    vec![
        WindowCommand::ShowWindowed,
        WindowCommand::Unminimize,
        WindowCommand::RequestAttention,
        WindowCommand::GainFocus,
    ]
}

/// The message for a window that was resized to `width` by `height`. A size
/// of zero by zero is what a click on the minimise button gives: the window
/// then goes to the tray. No other size calls for anything.
pub fn message_for_resize(width: u32, height: u32) -> (message: Option<Message>)
    ensures
        message == if width == 0 && height == 0 {
            Some(Message::Ui(UiMessage::MinimizeToTray))
        } else {
            None
        },
{
    if width == 0 && height == 0 {
        Some(Message::Ui(UiMessage::MinimizeToTray))
    } else {
        None
    }
}

/// The message for an event of the tray icon. The icon has no menu, so any
/// event brings the window back.
pub fn message_for_tray_event() -> (message: Message)
    ensures
        message == Message::Ui(UiMessage::RestoreFromTray),
{
    Message::Ui(UiMessage::RestoreFromTray)
}

/// The message for the start-at-login checkbox when it is set to `checked`.
pub fn message_for_checkbox(checked: bool) -> (message: Message)
    ensures
        message == if checked {
            Message::User(UserMessage::RunAtStartup)
        } else {
            Message::User(UserMessage::DontRunAtStartup)
        },
{
    if checked {
        Message::User(UserMessage::RunAtStartup)
    } else {
        Message::User(UserMessage::DontRunAtStartup)
    }
}

/// The operation that has to succeed on the machine before `message` is
/// handed to [`NoHiddenExtensionsState::update`]: the one that the user
/// asked for. Messages that the user did not send call for none.
pub fn operation_for(message: Message) -> (operation: Option<Operation>)
    ensures
        operation == match message {
            Message::User(UserMessage::RunAtStartup) => Some(Operation::RunThisProgramAtStartup),
            Message::User(UserMessage::DontRunAtStartup) => Some(
                Operation::DontRunThisProgramAtStartup,
            ),
            Message::User(UserMessage::HideFileExtensions) => Some(
                Operation::TurnOffFileExtensionHiding,
            ),
            _ => None,
        },
{
    match message {
        Message::User(UserMessage::RunAtStartup) => Some(Operation::RunThisProgramAtStartup),
        Message::User(UserMessage::DontRunAtStartup) => Some(
            Operation::DontRunThisProgramAtStartup,
        ),
        Message::User(UserMessage::HideFileExtensions) => Some(
            Operation::TurnOffFileExtensionHiding,
        ),
        _ => None,
    }
}

impl NoHiddenExtensionsState {
    /// The state after `message`.
    pub open spec fn after(self, message: Message) -> NoHiddenExtensionsState {
        match message {
            Message::User(UserMessage::RunAtStartup) => NoHiddenExtensionsState {
                run_at_startup: true,
                ..self
            },
            Message::User(UserMessage::DontRunAtStartup) => NoHiddenExtensionsState {
                run_at_startup: false,
                ..self
            },
            Message::Backend(BackendMessage::FileExtensionsAreNowHidden) => NoHiddenExtensionsState {
                file_extensions_hidden: true,
                ..self
            },
            Message::Backend(
                BackendMessage::FileExtensionsAreNoLongerHidden,
            ) => NoHiddenExtensionsState { file_extensions_hidden: false, ..self },
            _ => self,
        }
    }

    /// The commands that `message` calls for.
    pub open spec fn commands_for(message: Message) -> Seq<WindowCommand> {
        match message {
            Message::Backend(BackendMessage::FileExtensionsAreNowHidden) =>
                spec_commands_which_notify_user(),
            Message::Ui(UiMessage::RestoreFromTray) => seq![
                WindowCommand::ShowWindowed,
                WindowCommand::Unminimize,
                WindowCommand::GainFocus,
            ],
            Message::Ui(UiMessage::MinimizeToTray) => seq![WindowCommand::Hide],
            _ => Seq::empty(),
        }
    }

    /// The state at the start of the program, and the commands that it
    /// starts with. Hidden extensions are brought before the user even if
    /// the program was asked to start minimised. Otherwise a program that
    /// was asked to start minimised hides its window, and one that was not
    /// leaves it alone.
    pub fn new(file_extensions_hidden: bool, run_at_startup: bool, start_minimized: bool) -> (start:
        (NoHiddenExtensionsState, Vec<WindowCommand>))
        ensures
            start.0 == (NoHiddenExtensionsState { run_at_startup, file_extensions_hidden }),
            start.1@ == if file_extensions_hidden {
                spec_commands_which_notify_user()
            } else if start_minimized {
                seq![WindowCommand::Hide]
            } else {
                Seq::empty()
            },
    {
        let state = NoHiddenExtensionsState { run_at_startup, file_extensions_hidden };
        let commands = if file_extensions_hidden {
            get_commands_which_notify_user()
        } else if start_minimized {
            vec![WindowCommand::Hide]
        } else {
            Vec::new()
        };
        (state, commands)
    }

    /// The title of the window.
    pub fn title(&self) -> (title: &'static str)
        ensures
            title@ == APPLICATION_DISPLAY_NAME@,
    {
        APPLICATION_DISPLAY_NAME
    }

    /// Takes `message` in and answers the commands that it calls for. For a
    /// message of the user, the operation named by [`operation_for`] has
    /// succeeded before.
    ///
    /// A request to start at login, or not to, is recorded as granted. A
    /// request to show extensions leaves the state alone: the change shows
    /// when the listener reports it. The report that extensions are hidden
    /// is recorded and brings the window before the user; the report that
    /// they are shown is only recorded. A window that was minimised goes to
    /// the tray, and an event of the tray brings it back.
    pub fn update(&mut self, message: Message) -> (commands: Vec<WindowCommand>)
        ensures
            *final(self) == old(self).after(message),
            commands@ == Self::commands_for(message),
    {
        match message {
            Message::User(UserMessage::RunAtStartup) => {
                self.run_at_startup = true;
                Vec::new()
            },
            Message::User(UserMessage::DontRunAtStartup) => {
                self.run_at_startup = false;
                Vec::new()
            },
            Message::User(UserMessage::HideFileExtensions) => Vec::new(),
            Message::Backend(BackendMessage::FileExtensionsAreNowHidden) => {
                self.file_extensions_hidden = true;
                get_commands_which_notify_user()
            },
            Message::Backend(BackendMessage::FileExtensionsAreNoLongerHidden) => {
                self.file_extensions_hidden = false;
                Vec::new()
            },
            Message::Ui(UiMessage::RestoreFromTray) => vec![
                WindowCommand::ShowWindowed,
                WindowCommand::Unminimize,
                WindowCommand::GainFocus,
            ],
            Message::Ui(UiMessage::MinimizeToTray) => vec![WindowCommand::Hide],
        }
    }

    /// The text of the window: a warning while extensions are hidden, a
    /// reassurance while they are shown.
    pub fn body_text(&self) -> (text: &'static str)
        ensures
            text@ == if self.file_extensions_hidden {
                HIDDEN_WARNING@
            } else {
                VISIBLE_NOTICE@
            },
    {
        if self.file_extensions_hidden {
            HIDDEN_WARNING
        } else {
            VISIBLE_NOTICE
        }
    }

    /// The message that the button to show extensions sends when pressed.
    /// While extensions are shown the button sends none and cannot be
    /// pressed.
    pub fn button_message(&self) -> (message: Option<Message>)
        ensures
            message == if self.file_extensions_hidden {
                Some(Message::User(UserMessage::HideFileExtensions))
            } else {
                None
            },
    {
        if self.file_extensions_hidden {
            Some(Message::User(UserMessage::HideFileExtensions))
        } else {
            None
        }
    }
}

} // verus!
