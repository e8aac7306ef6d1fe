//! Whether the file manager hides file extensions, and how to stop it.

use crate::config::{ConfigKey, ConfigValue, ConfigValueView};
use crate::err::{Error, IoFailure};
use crate::host::{Progress, ProgressView, Request, RequestView, Response, ResponseView};
use crate::shell::{
    restart_windows_explorer, resume_restart_windows_explorer, spec_restart_windows_explorer,
    spec_resume_restart_windows_explorer, RestartStage,
};
use crate::store::{
    begin_read, read_outcome, registry_failure, resume_set_or_update_registry_value,
    set_or_update_registry_value, spec_begin_read, spec_resume_set_or_update_registry_value,
    spec_set_or_update_registry_value, stored_value, ReadStage, WriteStage,
};
use vstd::prelude::*;

verus! {

/// The flag that makes the file manager show file extensions.
pub const EXTENSIONS_VISIBLE: u32 = 0;

/// The stages of [`turn_off_file_extension_hiding`].
#[derive(Clone, Copy, Debug, PartialEq, Eq, Structural)]
pub enum HidingStage {
    /// The setting is being written.
    Updating(WriteStage),
    /// The setting was changed, and the file manager is being restarted.
    Restarting(RestartStage),
}

/// The first step of [`are_file_extensions_hidden`].
pub open spec fn spec_are_file_extensions_hidden() -> ProgressView<ReadStage, bool> {
    ProgressView::Perform(
        spec_begin_read(ConfigKey::HideFileExt).0,
        spec_begin_read(ConfigKey::HideFileExt).1,
    )
}

/// What [`resume_are_file_extensions_hidden`] answers.
pub open spec fn spec_resume_are_file_extensions_hidden(
    stage: ReadStage,
    response: ResponseView,
) -> ProgressView<ReadStage, bool> {
    let key = ConfigKey::HideFileExt;
    match stage {
        ReadStage::OpeningKey => match response.completion() {
            Ok(_) => ProgressView::Perform(ReadStage::ReadingValue, RequestView::ReadValue { key }),
            Err(cause) => ProgressView::Finished(Err(registry_failure(key, cause))),
        },
        ReadStage::ReadingValue => match stored_value(key, response) {
            Ok(Some(ConfigValueView::Flag(flag))) => ProgressView::Finished(Ok(flag != 0)),
            Ok(Some(ConfigValueView::Path(_))) => ProgressView::Finished(
                Err(registry_failure(key, IoFailure::InvalidData)),
            ),
            Ok(None) => ProgressView::Finished(Err(registry_failure(key, IoFailure::NotFound))),
            Err(cause) => ProgressView::Finished(Err(registry_failure(key, cause))),
        },
    }
}

/// Starts the query whether the file manager hides file extensions. The
/// first request opens the key of the setting for reading.
pub fn are_file_extensions_hidden() -> (progress: Progress<ReadStage, bool>)
    ensures
        progress@ == spec_are_file_extensions_hidden(),
{
    let (stage, request) = begin_read(ConfigKey::HideFileExt);
    Progress::Perform(stage, request)
}

/// Continues [`are_file_extensions_hidden`] from `stage`, with the host's
/// response to the request of that stage.
///
/// The flag is read: zero means that extensions are shown, any other number
/// that they are hidden. A flag that does not exist leaves the answer open,
/// so the query then fails, as it does on any other failure, with
/// [`Error::RegistryOperationFailed`].
pub fn resume_are_file_extensions_hidden(stage: ReadStage, response: Response) -> (progress:
    Progress<ReadStage, bool>)
    ensures
        progress@ == spec_resume_are_file_extensions_hidden(stage, response@),
{
    let key = ConfigKey::HideFileExt;
    match stage {
        ReadStage::OpeningKey => match response.completion() {
            Ok(_) => Progress::Perform(ReadStage::ReadingValue, Request::ReadValue { key }),
            Err(cause) => Progress::Finished(Err(Error::RegistryOperationFailed { key, cause })),
        },
        ReadStage::ReadingValue => match read_outcome(key, response) {
            Ok(Some(ConfigValue::Flag(flag))) => Progress::Finished(Ok(flag != 0)),
            Ok(Some(ConfigValue::Path(_))) => Progress::Finished(
                Err(Error::RegistryOperationFailed { key, cause: IoFailure::InvalidData }),
            ),
            Ok(None) => Progress::Finished(
                Err(Error::RegistryOperationFailed { key, cause: IoFailure::NotFound }),
            ),
            Err(cause) => Progress::Finished(Err(Error::RegistryOperationFailed { key, cause })),
        },
    }
}

/// How [`turn_off_file_extension_hiding`] goes on from the progress of the
/// write: once the setting was changed, the file manager is restarted.
pub open spec fn spec_after_update(update: ProgressView<WriteStage, bool>) -> ProgressView<
    HidingStage,
    bool,
> {
    match update {
        ProgressView::Perform(stage, request) => ProgressView::Perform(
            HidingStage::Updating(stage),
            request,
        ),
        ProgressView::Finished(Ok(true)) => spec_after_restart(spec_restart_windows_explorer()),
        ProgressView::Finished(Ok(false)) => ProgressView::Finished(Ok(false)),
        ProgressView::Finished(Err(error)) => ProgressView::Finished(Err(error)),
    }
}

/// How [`turn_off_file_extension_hiding`] goes on from the progress of the
/// restart: once the file manager was terminated, the operation ends with
/// `true`, for the setting that was changed.
pub open spec fn spec_after_restart(restart: ProgressView<RestartStage, ()>) -> ProgressView<
    HidingStage,
    bool,
> {
    match restart {
        ProgressView::Perform(stage, request) => ProgressView::Perform(
            HidingStage::Restarting(stage),
            request,
        ),
        ProgressView::Finished(Ok(_)) => ProgressView::Finished(Ok(true)),
        ProgressView::Finished(Err(error)) => ProgressView::Finished(Err(error)),
    }
}

fn after_restart(restart: Progress<RestartStage, ()>) -> (progress: Progress<HidingStage, bool>)
    ensures
        progress@ == spec_after_restart(restart@),
{
    match restart {
        Progress::Perform(stage, request) => Progress::Perform(
            HidingStage::Restarting(stage),
            request,
        ),
        Progress::Finished(Ok(_)) => Progress::Finished(Ok(true)),
        Progress::Finished(Err(error)) => Progress::Finished(Err(error)),
    }
}

fn after_update(update: Progress<WriteStage, bool>) -> (progress: Progress<HidingStage, bool>)
    ensures
        progress@ == spec_after_update(update@),
{
    match update {
        Progress::Perform(stage, request) => Progress::Perform(
            HidingStage::Updating(stage),
            request,
        ),
        Progress::Finished(Ok(true)) => after_restart(restart_windows_explorer()),
        Progress::Finished(Ok(false)) => Progress::Finished(Ok(false)),
        Progress::Finished(Err(error)) => Progress::Finished(Err(error)),
    }
}

/// The first step of [`turn_off_file_extension_hiding`].
pub open spec fn spec_turn_off_file_extension_hiding() -> ProgressView<HidingStage, bool> {
    spec_after_update(spec_set_or_update_registry_value())
}

/// What [`resume_turn_off_file_extension_hiding`] answers.
pub open spec fn spec_resume_turn_off_file_extension_hiding(
    stage: HidingStage,
    response: ResponseView,
) -> ProgressView<HidingStage, bool> {
    match stage {
        HidingStage::Updating(stage) => spec_after_update(
            spec_resume_set_or_update_registry_value(
                stage,
                ConfigKey::HideFileExt,
                ConfigValueView::Flag(EXTENSIONS_VISIBLE),
                response,
            ),
        ),
        HidingStage::Restarting(stage) => spec_after_restart(
            spec_resume_restart_windows_explorer(stage, response),
        ),
    }
}

/// Starts the operation that makes the file manager show file extensions.
/// It ends with whether the setting was changed.
pub fn turn_off_file_extension_hiding() -> (progress: Progress<HidingStage, bool>)
    ensures
        progress@ == spec_turn_off_file_extension_hiding(),
{
    after_update(set_or_update_registry_value())
}

/// Continues [`turn_off_file_extension_hiding`] from `stage`, with the
/// host's response to the request of that stage.
///
/// The flag for shown extensions is written if the stored flag differs from
/// it. If, and only if, the flag was changed, the file manager is restarted
/// to make it take notice. A restart that fails ends the operation with its
/// error; the flag stays changed, as the registry and the file manager are
/// not bound by one transaction.
pub fn resume_turn_off_file_extension_hiding(stage: HidingStage, response: Response) -> (progress:
    Progress<HidingStage, bool>)
    ensures
        progress@ == spec_resume_turn_off_file_extension_hiding(stage, response@),
{
    match stage {
        HidingStage::Updating(stage) => after_update(
            resume_set_or_update_registry_value(
                stage,
                ConfigKey::HideFileExt,
                &ConfigValue::Flag(EXTENSIONS_VISIBLE),
                response,
            ),
        ),
        HidingStage::Restarting(stage) => after_restart(
            resume_restart_windows_explorer(stage, response),
        ),
    }
}

} // verus!
