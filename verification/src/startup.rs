//! Whether this program is registered to start at login, and how to register
//! it and to take the registration back.
//!
//! The registration is the absolute path of an executable. It counts only if
//! it is the path of the executable that runs now: a program that was moved
//! since it was registered is not registered any more, and registering it
//! again puts the new path in place of the old.

use crate::config::{ConfigKey, ConfigValue, ConfigValueView};
use crate::err::{Error, ErrorView, IoFailure};
use crate::host::{KeyAccess, Progress, ProgressView, Request, RequestView, Response, ResponseView};
use crate::store::{
    begin_read, read_outcome, registry_failure, resume_set_or_update_registry_value,
    set_or_update_registry_value, spec_begin_read, spec_resume_set_or_update_registry_value,
    spec_set_or_update_registry_value, stored_value, ReadStage, WriteStage,
};
use vstd::prelude::*;

verus! {

/// The stages of [`dont_run_this_program_at_startup`].
#[derive(Clone, Copy, Debug, PartialEq, Eq, Structural)]
pub enum RemovalStage {
    /// It is being found out whether the program is registered.
    Checking(ReadStage),
    /// The key is being opened for the deletion.
    OpeningKey,
    /// The registration is being deleted.
    Deleting,
}

/// The path of the running executable as text, where it is known.
pub open spec fn path_text(executable: Option<&str>) -> Option<Seq<char>> {
    match executable {
        Some(path) => Some(path@),
        None => None,
    }
}

/// The first step of [`will_app_run_at_startup`].
pub open spec fn spec_will_app_run_at_startup() -> ProgressView<ReadStage, bool> {
    ProgressView::Perform(
        spec_begin_read(ConfigKey::RunAtStartup).0,
        spec_begin_read(ConfigKey::RunAtStartup).1,
    )
}

/// What [`resume_will_app_run_at_startup`] answers.
pub open spec fn spec_resume_will_app_run_at_startup(
    stage: ReadStage,
    executable: Option<Seq<char>>,
    response: ResponseView,
) -> ProgressView<ReadStage, bool> {
    let key = ConfigKey::RunAtStartup;
    match stage {
        ReadStage::OpeningKey => match response.completion() {
            Ok(_) => ProgressView::Perform(ReadStage::ReadingValue, RequestView::ReadValue { key }),
            Err(IoFailure::NotFound) => ProgressView::Finished(Ok(false)),
            Err(cause) => ProgressView::Finished(Err(registry_failure(key, cause))),
        },
        ReadStage::ReadingValue => match stored_value(key, response) {
            Ok(None) => ProgressView::Finished(Ok(false)),
            Ok(Some(ConfigValueView::Path(registered))) => match executable {
                Some(path) => ProgressView::Finished(Ok(path == registered)),
                None => ProgressView::Finished(Err(ErrorView::ExecutablePathNotRepresentable)),
            },
            Ok(Some(ConfigValueView::Flag(_))) => ProgressView::Finished(
                Err(registry_failure(key, IoFailure::InvalidData)),
            ),
            Err(cause) => ProgressView::Finished(Err(registry_failure(key, cause))),
        },
    }
}

/// Starts the query whether the running program is registered to start at
/// login. The first request opens the key of the registration for reading.
pub fn will_app_run_at_startup() -> (progress: Progress<ReadStage, bool>)
    ensures
        progress@ == spec_will_app_run_at_startup(),
{
    let (stage, request) = begin_read(ConfigKey::RunAtStartup);
    Progress::Perform(stage, request)
}

/// Continues [`will_app_run_at_startup`] from `stage`, with the host's
/// response to the request of that stage. `executable` is the path of the
/// running executable, or `None` where that path cannot be had as text.
///
/// Where no path is registered the answer is `false`, whatever `executable`
/// is: that the key or the value does not exist is no error. Where a path
/// is registered, the answer is whether it is exactly the path of the
/// running executable; if that path cannot be had as text, the query fails
/// with [`Error::ExecutablePathNotRepresentable`]. Any other failure of the
/// registry ends the query with [`Error::RegistryOperationFailed`].
pub fn resume_will_app_run_at_startup(
    stage: ReadStage,
    executable: Option<&str>,
    response: Response,
) -> (progress: Progress<ReadStage, bool>)
    ensures
        progress@ == spec_resume_will_app_run_at_startup(stage, path_text(executable), response@),
{
    let key = ConfigKey::RunAtStartup;
    match stage {
        ReadStage::OpeningKey => match response.completion() {
            Ok(_) => Progress::Perform(ReadStage::ReadingValue, Request::ReadValue { key }),
            Err(IoFailure::NotFound) => Progress::Finished(Ok(false)),
            Err(cause) => Progress::Finished(Err(Error::RegistryOperationFailed { key, cause })),
        },
        ReadStage::ReadingValue => match read_outcome(key, response) {
            Ok(None) => Progress::Finished(Ok(false)),
            Ok(Some(ConfigValue::Path(registered))) => match executable {
                Some(path) => Progress::Finished(Ok(path.to_owned() == registered)),
                None => Progress::Finished(Err(Error::ExecutablePathNotRepresentable)),
            },
            Ok(Some(ConfigValue::Flag(_))) => Progress::Finished(
                Err(Error::RegistryOperationFailed { key, cause: IoFailure::InvalidData }),
            ),
            Err(cause) => Progress::Finished(Err(Error::RegistryOperationFailed { key, cause })),
        },
    }
}

/// The first step of [`run_this_program_at_startup`].
pub open spec fn spec_run_this_program_at_startup(executable: Option<Seq<char>>) -> ProgressView<
    WriteStage,
    bool,
> {
    match executable {
        Some(_) => spec_set_or_update_registry_value(),
        None => ProgressView::Finished(Err(ErrorView::ExecutablePathNotRepresentable)),
    }
}

/// What [`resume_run_this_program_at_startup`] answers.
pub open spec fn spec_resume_run_this_program_at_startup(
    stage: WriteStage,
    executable: Option<Seq<char>>,
    response: ResponseView,
) -> ProgressView<WriteStage, bool> {
    match executable {
        Some(path) => spec_resume_set_or_update_registry_value(
            stage,
            ConfigKey::RunAtStartup,
            ConfigValueView::Path(path),
            response,
        ),
        None => ProgressView::Finished(Err(ErrorView::ExecutablePathNotRepresentable)),
    }
}

/// Starts the registration of the running program to start at login. The
/// operation ends with whether the registry was changed. `executable` is the
/// path of the running executable, or `None` where that path cannot be had
/// as text: the operation then ends at once, with
/// [`Error::ExecutablePathNotRepresentable`].
pub fn run_this_program_at_startup(executable: Option<&str>) -> (progress: Progress<
    WriteStage,
    bool,
>)
    ensures
        progress@ == spec_run_this_program_at_startup(path_text(executable)),
{
    match executable {
        Some(_) => set_or_update_registry_value(),
        None => Progress::Finished(Err(Error::ExecutablePathNotRepresentable)),
    }
}

/// Continues [`run_this_program_at_startup`] from `stage`, with the host's
/// response to the request of that stage.
///
/// The path of the running executable is written as the registration if the
/// registered path differs from it or there is none. A registration that
/// went stale when the program was moved is so put right.
pub fn resume_run_this_program_at_startup(
    stage: WriteStage,
    executable: Option<&str>,
    response: Response,
) -> (progress: Progress<WriteStage, bool>)
    ensures
        progress@ == spec_resume_run_this_program_at_startup(
            stage,
            path_text(executable),
            response@,
        ),
{
    match executable {
        Some(path) => resume_set_or_update_registry_value(
            stage,
            ConfigKey::RunAtStartup,
            &ConfigValue::Path(path.to_owned()),
            response,
        ),
        None => Progress::Finished(Err(Error::ExecutablePathNotRepresentable)),
    }
}

/// How [`dont_run_this_program_at_startup`] goes on from the progress of the
/// query: only a program that is registered has its registration deleted.
pub open spec fn spec_after_check(check: ProgressView<ReadStage, bool>) -> ProgressView<
    RemovalStage,
    bool,
> {
    match check {
        ProgressView::Perform(stage, request) => ProgressView::Perform(
            RemovalStage::Checking(stage),
            request,
        ),
        ProgressView::Finished(Ok(true)) => ProgressView::Perform(
            RemovalStage::OpeningKey,
            RequestView::OpenKey {
                key: ConfigKey::RunAtStartup,
                access: KeyAccess::QueryAndSet,
                transacted: false,
            },
        ),
        ProgressView::Finished(Ok(false)) => ProgressView::Finished(Ok(false)),
        ProgressView::Finished(Err(error)) => ProgressView::Finished(Err(error)),
    }
}

fn after_check(check: Progress<ReadStage, bool>) -> (progress: Progress<RemovalStage, bool>)
    ensures
        progress@ == spec_after_check(check@),
{
    match check {
        Progress::Perform(stage, request) => Progress::Perform(
            RemovalStage::Checking(stage),
            request,
        ),
        Progress::Finished(Ok(true)) => Progress::Perform(
            RemovalStage::OpeningKey,
            Request::OpenKey {
                key: ConfigKey::RunAtStartup,
                access: KeyAccess::QueryAndSet,
                transacted: false,
            },
        ),
        Progress::Finished(Ok(false)) => Progress::Finished(Ok(false)),
        Progress::Finished(Err(error)) => Progress::Finished(Err(error)),
    }
}

/// The first step of [`dont_run_this_program_at_startup`].
pub open spec fn spec_dont_run_this_program_at_startup() -> ProgressView<RemovalStage, bool> {
    spec_after_check(spec_will_app_run_at_startup())
}

/// What [`resume_dont_run_this_program_at_startup`] answers.
pub open spec fn spec_resume_dont_run_this_program_at_startup(
    stage: RemovalStage,
    executable: Option<Seq<char>>,
    response: ResponseView,
) -> ProgressView<RemovalStage, bool> {
    let key = ConfigKey::RunAtStartup;
    match stage {
        RemovalStage::Checking(stage) => spec_after_check(
            spec_resume_will_app_run_at_startup(stage, executable, response),
        ),
        RemovalStage::OpeningKey => match response.completion() {
            Ok(_) => ProgressView::Perform(
                RemovalStage::Deleting,
                RequestView::DeleteValue { key },
            ),
            Err(cause) => ProgressView::Finished(Err(registry_failure(key, cause))),
        },
        RemovalStage::Deleting => match response.completion() {
            Ok(_) => ProgressView::Finished(Ok(true)),
            Err(cause) => ProgressView::Finished(Err(registry_failure(key, cause))),
        },
    }
}

/// Starts the operation that takes back the registration of the running
/// program. It ends with whether the registry was changed.
pub fn dont_run_this_program_at_startup() -> (progress: Progress<RemovalStage, bool>)
    ensures
        progress@ == spec_dont_run_this_program_at_startup(),
{
    after_check(will_app_run_at_startup())
}

/// Continues [`dont_run_this_program_at_startup`] from `stage`, with the
/// host's response to the request of that stage.
///
/// The operation first asks what [`will_app_run_at_startup`] asks. If the
/// running program is not registered, it ends with `false` and the registry
/// is not touched. If it is, the key is opened with the rights to query and
/// to set, the registration is deleted, and the operation ends with `true`.
/// A failure of the deletion, that of a value that does not exist included,
/// ends it with [`Error::RegistryOperationFailed`].
pub fn resume_dont_run_this_program_at_startup(
    stage: RemovalStage,
    executable: Option<&str>,
    response: Response,
) -> (progress: Progress<RemovalStage, bool>)
    ensures
        progress@ == spec_resume_dont_run_this_program_at_startup(
            stage,
            path_text(executable),
            response@,
        ),
{
    let key = ConfigKey::RunAtStartup;
    match stage {
        RemovalStage::Checking(stage) => after_check(
            resume_will_app_run_at_startup(stage, executable, response),
        ),
        RemovalStage::OpeningKey => match response.completion() {
            Ok(_) => Progress::Perform(RemovalStage::Deleting, Request::DeleteValue { key }),
            Err(cause) => Progress::Finished(Err(Error::RegistryOperationFailed { key, cause })),
        },
        RemovalStage::Deleting => match response.completion() {
            Ok(_) => Progress::Finished(Ok(true)),
            Err(cause) => Progress::Finished(Err(Error::RegistryOperationFailed { key, cause })),
        },
    }
}

} // verus!
