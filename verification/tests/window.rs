use no_hidden_extensions::ui::{
    get_commands_which_notify_user, message_for_checkbox, message_for_resize,
    message_for_tray_event, operation_for, Message, NoHiddenExtensionsState, Operation, UiMessage,
    UserMessage, WindowCommand, APPLICATION_DISPLAY_NAME, HIDDEN_WARNING, VISIBLE_NOTICE,
};
use no_hidden_extensions::watcher::BackendMessage;

fn notify() -> Vec<WindowCommand> {
    vec![
        WindowCommand::ShowWindowed,
        WindowCommand::Unminimize,
        WindowCommand::RequestAttention,
        WindowCommand::GainFocus,
    ]
}

fn state(run_at_startup: bool, file_extensions_hidden: bool) -> NoHiddenExtensionsState {
    NoHiddenExtensionsState { run_at_startup, file_extensions_hidden }
}

#[test]
fn the_user_is_notified_in_four_steps() {
    assert_eq!(get_commands_which_notify_user(), notify());
}

#[test]
fn hidden_extensions_are_shown_to_the_user_at_the_start() {
    assert_eq!(NoHiddenExtensionsState::new(true, false, false), (state(false, true), notify()));
    assert_eq!(NoHiddenExtensionsState::new(true, true, true), (state(true, true), notify()));
}

#[test]
fn a_program_started_minimised_hides_its_window() {
    assert_eq!(
        NoHiddenExtensionsState::new(false, true, true),
        (state(true, false), vec![WindowCommand::Hide])
    );
    assert_eq!(NoHiddenExtensionsState::new(false, false, false), (state(false, false), Vec::new()));
}

#[test]
fn the_title_is_the_display_name() {
    assert_eq!(state(false, false).title(), "no-hidden-extensions");
    assert_eq!(APPLICATION_DISPLAY_NAME, "no-hidden-extensions");
}

#[test]
fn the_user_messages_call_for_their_operations() {
    assert_eq!(
        operation_for(Message::User(UserMessage::RunAtStartup)),
        Some(Operation::RunThisProgramAtStartup)
    );
    assert_eq!(
        operation_for(Message::User(UserMessage::DontRunAtStartup)),
        Some(Operation::DontRunThisProgramAtStartup)
    );
    assert_eq!(
        operation_for(Message::User(UserMessage::HideFileExtensions)),
        Some(Operation::TurnOffFileExtensionHiding)
    );
    assert_eq!(operation_for(Message::Backend(BackendMessage::FileExtensionsAreNowHidden)), None);
    assert_eq!(operation_for(Message::Ui(UiMessage::MinimizeToTray)), None);
    assert_eq!(operation_for(Message::Ui(UiMessage::RestoreFromTray)), None);
}

#[test]
fn the_state_follows_the_messages() {
    let mut window = state(false, false);
    assert_eq!(window.update(Message::User(UserMessage::RunAtStartup)), Vec::new());
    assert_eq!(window, state(true, false));
    assert_eq!(window.update(Message::User(UserMessage::HideFileExtensions)), Vec::new());
    assert_eq!(window, state(true, false));
    assert_eq!(window.update(Message::Backend(BackendMessage::FileExtensionsAreNowHidden)), notify());
    assert_eq!(window, state(true, true));
    assert_eq!(window.update(Message::User(UserMessage::DontRunAtStartup)), Vec::new());
    assert_eq!(window, state(false, true));
    assert_eq!(
        window.update(Message::Backend(BackendMessage::FileExtensionsAreNoLongerHidden)),
        Vec::new()
    );
    assert_eq!(window, state(false, false));
}

#[test]
fn the_window_goes_to_the_tray_and_comes_back() {
    let mut window = state(true, true);
    assert_eq!(window.update(Message::Ui(UiMessage::MinimizeToTray)), vec![WindowCommand::Hide]);
    assert_eq!(window, state(true, true));
    assert_eq!(
        window.update(Message::Ui(UiMessage::RestoreFromTray)),
        vec![WindowCommand::ShowWindowed, WindowCommand::Unminimize, WindowCommand::GainFocus]
    );
    assert_eq!(window, state(true, true));
}

#[test]
fn only_a_window_of_no_size_goes_to_the_tray() {
    assert_eq!(message_for_resize(0, 0), Some(Message::Ui(UiMessage::MinimizeToTray)));
    assert_eq!(message_for_resize(0, 175), None);
    assert_eq!(message_for_resize(475, 0), None);
    assert_eq!(message_for_resize(475, 175), None);
    assert_eq!(message_for_tray_event(), Message::Ui(UiMessage::RestoreFromTray));
}

#[test]
fn the_checkbox_sends_what_it_was_set_to() {
    assert_eq!(message_for_checkbox(true), Message::User(UserMessage::RunAtStartup));
    assert_eq!(message_for_checkbox(false), Message::User(UserMessage::DontRunAtStartup));
}

#[test]
fn the_window_warns_while_extensions_are_hidden() {
    assert_eq!(state(false, true).body_text(), HIDDEN_WARNING);
    assert_eq!(
        state(false, true).body_text(),
        "Warning - file extensions are hidden in Windows Explorer. This means a higher risk of falling for a phishing attack."
    );
    assert_eq!(state(true, false).body_text(), VISIBLE_NOTICE);
    assert_eq!(
        state(true, false).body_text(),
        "File extensions are visible in Windows Explorer, which is great! It is harder for you to fall for a phishing attack."
    );
}

#[test]
fn the_button_works_only_while_extensions_are_hidden() {
    assert_eq!(
        state(false, true).button_message(),
        Some(Message::User(UserMessage::HideFileExtensions))
    );
    assert_eq!(state(false, false).button_message(), None);
}
