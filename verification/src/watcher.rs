//! Waiting for a change that someone else made to the file manager's
//! settings, and telling what the setting is afterwards.
//!
//! A wait is armed once and returns once. It tells that something under the
//! watched key changed, not what: whoever wants to know reads the setting
//! again. Changes that come in quick succession may be reported as one.

use crate::config::ConfigKey;
use crate::err::Error;
use crate::host::{KeyAccess, Progress, ProgressView, Request, RequestView, Response, ResponseView};
use crate::store::{registry_failure, ReadStage};
use crate::visibility::{
    are_file_extensions_hidden, resume_are_file_extensions_hidden,
    spec_are_file_extensions_hidden, spec_resume_are_file_extensions_hidden,
};
use vstd::prelude::*;

verus! {

/// The wait has no time limit.
pub const NO_TIMEOUT: u32 = u32::MAX;

/// The stages of a wait for a change.
#[derive(Clone, Copy, Debug, PartialEq, Eq, Structural)]
pub enum WaitStage {
    /// The watched key is being opened.
    OpeningKey,
    /// The wait is armed and has not returned.
    Waiting,
}

/// The stages of [`next_backend_message`].
#[derive(Clone, Copy, Debug, PartialEq, Eq, Structural)]
pub enum ListenStage {
    /// A change is being waited for.
    Waiting(WaitStage),
    /// A change was reported, and the setting is being read again.
    Reading(ReadStage),
}

/// Notice of what the setting is after a change.
#[derive(Clone, Copy, Debug, PartialEq, Eq, Structural)]
pub enum BackendMessage {
    FileExtensionsAreNowHidden,
    FileExtensionsAreNoLongerHidden,
}

/// The first step of [`wait_for_any_change_in_windows_explorer_regkey`].
pub open spec fn spec_wait_for_any_change_in_windows_explorer_regkey() -> ProgressView<
    WaitStage,
    (),
> {
    ProgressView::Perform(
        WaitStage::OpeningKey,
        RequestView::OpenKey {
            key: ConfigKey::HideFileExt,
            access: KeyAccess::Read,
            transacted: false,
        },
    )
}

/// What [`resume_wait_for_any_change_in_windows_explorer_regkey`] answers.
pub open spec fn spec_resume_wait_for_any_change_in_windows_explorer_regkey(
    stage: WaitStage,
    response: ResponseView,
) -> ProgressView<WaitStage, ()> {
    let key = ConfigKey::HideFileExt;
    match stage {
        WaitStage::OpeningKey => match response.completion() {
            Ok(_) => ProgressView::Perform(
                WaitStage::Waiting,
                RequestView::AwaitChange { key, watch_subtree: false, timeout_ms: NO_TIMEOUT },
            ),
            Err(cause) => ProgressView::Finished(Err(registry_failure(key, cause))),
        },
        WaitStage::Waiting => match response.completion() {
            Ok(_) => ProgressView::Finished(Ok(())),
            Err(cause) => ProgressView::Finished(Err(registry_failure(key, cause))),
        },
    }
}

/// Starts a wait for a change of any value under the key of the file
/// manager's settings. The first request opens that key for reading.
pub fn wait_for_any_change_in_windows_explorer_regkey() -> (progress: Progress<WaitStage, ()>)
    ensures
        progress@ == spec_wait_for_any_change_in_windows_explorer_regkey(),
{
    Progress::Perform(
        WaitStage::OpeningKey,
        Request::OpenKey { key: ConfigKey::HideFileExt, access: KeyAccess::Read, transacted: false },
    )
}

/// Continues [`wait_for_any_change_in_windows_explorer_regkey`] from
/// `stage`, with the host's response to the request of that stage.
///
/// The wait watches the values of the key itself, not those of its subkeys,
/// and has no time limit. It ends when the host reports a change, and fails
/// with [`Error::RegistryOperationFailed`] if the key cannot be opened or the
/// wait itself fails.
pub fn resume_wait_for_any_change_in_windows_explorer_regkey(
    stage: WaitStage,
    response: Response,
) -> (progress: Progress<WaitStage, ()>)
    ensures
        progress@ == spec_resume_wait_for_any_change_in_windows_explorer_regkey(stage, response@),
{
    let key = ConfigKey::HideFileExt;
    match stage {
        WaitStage::OpeningKey => match response.completion() {
            Ok(_) => Progress::Perform(
                WaitStage::Waiting,
                Request::AwaitChange { key, watch_subtree: false, timeout_ms: NO_TIMEOUT },
            ),
            Err(cause) => Progress::Finished(Err(Error::RegistryOperationFailed { key, cause })),
        },
        WaitStage::Waiting => match response.completion() {
            Ok(_) => Progress::Finished(Ok(())),
            Err(cause) => Progress::Finished(Err(Error::RegistryOperationFailed { key, cause })),
        },
    }
}

/// The notice for a setting that was read as `hidden`.
pub open spec fn spec_message_for(hidden: bool) -> BackendMessage {
    if hidden {
        BackendMessage::FileExtensionsAreNowHidden
    } else {
        BackendMessage::FileExtensionsAreNoLongerHidden
    }
}

/// The notice for a setting that was read as `hidden`.
pub fn message_for(hidden: bool) -> (message: BackendMessage)
    ensures
        message == spec_message_for(hidden),
{
    if hidden {
        BackendMessage::FileExtensionsAreNowHidden
    } else {
        BackendMessage::FileExtensionsAreNoLongerHidden
    }
}

/// How [`next_backend_message`] goes on from the progress of the wait: once
/// a change was reported, the setting is read again.
pub open spec fn spec_after_wait(wait: ProgressView<WaitStage, ()>) -> ProgressView<
    ListenStage,
    BackendMessage,
> {
    match wait {
        ProgressView::Perform(stage, request) => ProgressView::Perform(
            ListenStage::Waiting(stage),
            request,
        ),
        ProgressView::Finished(Ok(_)) => spec_after_reading(spec_are_file_extensions_hidden()),
        ProgressView::Finished(Err(error)) => ProgressView::Finished(Err(error)),
    }
}

/// How [`next_backend_message`] goes on from the progress of the read: once
/// the setting was read, the notice for it is given.
pub open spec fn spec_after_reading(reading: ProgressView<ReadStage, bool>) -> ProgressView<
    ListenStage,
    BackendMessage,
> {
    match reading {
        ProgressView::Perform(stage, request) => ProgressView::Perform(
            ListenStage::Reading(stage),
            request,
        ),
        ProgressView::Finished(Ok(hidden)) => ProgressView::Finished(Ok(spec_message_for(hidden))),
        ProgressView::Finished(Err(error)) => ProgressView::Finished(Err(error)),
    }
}

fn after_reading(reading: Progress<ReadStage, bool>) -> (progress: Progress<
    ListenStage,
    BackendMessage,
>)
    ensures
        progress@ == spec_after_reading(reading@),
{
    match reading {
        Progress::Perform(stage, request) => Progress::Perform(
            ListenStage::Reading(stage),
            request,
        ),
        Progress::Finished(Ok(hidden)) => Progress::Finished(Ok(message_for(hidden))),
        Progress::Finished(Err(error)) => Progress::Finished(Err(error)),
    }
}

fn after_wait(wait: Progress<WaitStage, ()>) -> (progress: Progress<ListenStage, BackendMessage>)
    ensures
        progress@ == spec_after_wait(wait@),
{
    match wait {
        Progress::Perform(stage, request) => Progress::Perform(
            ListenStage::Waiting(stage),
            request,
        ),
        Progress::Finished(Ok(_)) => after_reading(are_file_extensions_hidden()),
        Progress::Finished(Err(error)) => Progress::Finished(Err(error)),
    }
}

/// The first step of [`next_backend_message`].
pub open spec fn spec_next_backend_message() -> ProgressView<ListenStage, BackendMessage> {
    spec_after_wait(spec_wait_for_any_change_in_windows_explorer_regkey())
}

/// What [`resume_next_backend_message`] answers.
pub open spec fn spec_resume_next_backend_message(
    stage: ListenStage,
    response: ResponseView,
) -> ProgressView<ListenStage, BackendMessage> {
    match stage {
        ListenStage::Waiting(stage) => spec_after_wait(
            spec_resume_wait_for_any_change_in_windows_explorer_regkey(stage, response),
        ),
        ListenStage::Reading(stage) => spec_after_reading(
            spec_resume_are_file_extensions_hidden(stage, response),
        ),
    }
}

/// Starts one round of the listener for changes made from outside: a wait
/// for a change, a fresh read of the setting, and the notice of what it is
/// now. Whoever wants to listen on calls it again after each round.
pub fn next_backend_message() -> (progress: Progress<ListenStage, BackendMessage>)
    ensures
        progress@ == spec_next_backend_message(),
{
    after_wait(wait_for_any_change_in_windows_explorer_regkey())
}

/// Continues [`next_backend_message`] from `stage`, with the host's response
/// to the request of that stage.
///
/// Every wait that returns is followed by exactly one read and, if the read
/// succeeds, by exactly one notice, which tells what was read.
pub fn resume_next_backend_message(stage: ListenStage, response: Response) -> (progress: Progress<
    ListenStage,
    BackendMessage,
>)
    ensures
        progress@ == spec_resume_next_backend_message(stage, response@),
{
    match stage {
        ListenStage::Waiting(stage) => after_wait(
            resume_wait_for_any_change_in_windows_explorer_regkey(stage, response),
        ),
        ListenStage::Reading(stage) => after_reading(
            resume_are_file_extensions_hidden(stage, response),
        ),
    }
}

} // verus!
