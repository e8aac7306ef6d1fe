//! The configuration store: reading a setting, and writing one only where
//! the stored value differs, inside a transaction.

use crate::config::{ConfigKey, ConfigValue, ConfigValueView};
use crate::err::{Error, ErrorView, IoFailure};
use crate::host::{KeyAccess, Progress, ProgressView, Request, RequestView, Response, ResponseView};
use vstd::prelude::*;

verus! {

/// The stages of a plain read of a setting.
#[derive(Clone, Copy, Debug, PartialEq, Eq, Structural)]
pub enum ReadStage {
    /// The key is being opened.
    OpeningKey,
    /// The value is being read.
    ReadingValue,
}

/// The stages of a write that happens only if the stored value differs.
#[derive(Clone, Copy, Debug, PartialEq, Eq, Structural)]
pub enum WriteStage {
    /// The transaction is being opened.
    BeginningTransaction,
    /// The key is being opened inside the transaction.
    OpeningKey,
    /// The key does not exist and is being created inside the transaction.
    CreatingKey,
    /// The stored value is being read.
    ReadingCurrent,
    /// The new value is being written.
    Writing,
    /// The transaction is being committed; `changed` tells whether a value
    /// was written in it.
    Committing { changed: bool },
}

/// The error for a registry operation on `key` that failed with `cause`.
pub open spec fn registry_failure(key: ConfigKey, cause: IoFailure) -> ErrorView {
    ErrorView::RegistryOperationFailed { key, cause }
}

/// What a read of `key` found, given the host's response to it: the stored
/// value, or `None` where the value does not exist. A value of another type
/// than `key` is stored with, and a response that is no answer to a read,
/// count as invalid data.
pub open spec fn stored_value(key: ConfigKey, response: ResponseView) -> Result<
    Option<ConfigValueView>,
    IoFailure,
> {
    match response {
        ResponseView::Value(value) => if key.holds(value) {
            Ok(Some(value))
        } else {
            Err(IoFailure::InvalidData)
        },
        ResponseView::Failed(IoFailure::NotFound) => Ok(None),
        ResponseView::Failed(cause) => Err(cause),
        _ => Err(IoFailure::InvalidData),
    }
}

/// What a read of `key` found, given the host's response to it. That the
/// value does not exist is no failure: it is reported as `None`.
pub fn read_outcome(key: ConfigKey, response: Response) -> (outcome: Result<
    Option<ConfigValue>,
    IoFailure,
>)
    ensures
        stored_value(key, response@) == match outcome {
            Ok(Some(value)) => Ok(Some(value@)),
            Ok(None) => Ok(None),
            Err(cause) => Err(cause),
        },
{
    match response {
        Response::Value(value) => if key.admits(&value) {
            Ok(Some(value))
        } else {
            Err(IoFailure::InvalidData)
        },
        Response::Failed(IoFailure::NotFound) => Ok(None),
        Response::Failed(cause) => Err(cause),
        _ => Err(IoFailure::InvalidData),
    }
}

/// The first step of a plain read of `key`.
pub open spec fn spec_begin_read(key: ConfigKey) -> (ReadStage, RequestView) {
    (ReadStage::OpeningKey, RequestView::OpenKey { key, access: KeyAccess::Read, transacted: false })
}

/// Starts a plain read of `key`: the key is opened for reading, outside any
/// transaction.
pub fn begin_read(key: ConfigKey) -> (first: (ReadStage, Request))
    ensures
        (first.0, first.1@) == spec_begin_read(key),
{
    (ReadStage::OpeningKey, Request::OpenKey { key, access: KeyAccess::Read, transacted: false })
}

/// The first step of [`set_or_update_registry_value`].
pub open spec fn spec_set_or_update_registry_value() -> ProgressView<WriteStage, bool> {
    ProgressView::Perform(WriteStage::BeginningTransaction, RequestView::BeginTransaction)
}

/// What [`resume_set_or_update_registry_value`] answers.
pub open spec fn spec_resume_set_or_update_registry_value(
    stage: WriteStage,
    key: ConfigKey,
    desired: ConfigValueView,
    response: ResponseView,
) -> ProgressView<WriteStage, bool> {
    match stage {
        WriteStage::BeginningTransaction => match response.completion() {
            Ok(_) => ProgressView::Perform(
                WriteStage::OpeningKey,
                RequestView::OpenKey { key, access: KeyAccess::QueryAndSet, transacted: true },
            ),
            Err(cause) => ProgressView::Finished(Err(registry_failure(key, cause))),
        },
        WriteStage::OpeningKey => match response.completion() {
            Ok(_) => ProgressView::Perform(
                WriteStage::ReadingCurrent,
                RequestView::ReadValue { key },
            ),
            Err(IoFailure::NotFound) => ProgressView::Perform(
                WriteStage::CreatingKey,
                RequestView::CreateKey { key, access: KeyAccess::QueryAndSet, transacted: true },
            ),
            Err(cause) => ProgressView::Finished(Err(registry_failure(key, cause))),
        },
        WriteStage::CreatingKey => match response.completion() {
            Ok(_) => ProgressView::Perform(
                WriteStage::ReadingCurrent,
                RequestView::ReadValue { key },
            ),
            Err(cause) => ProgressView::Finished(Err(registry_failure(key, cause))),
        },
        WriteStage::ReadingCurrent => match stored_value(key, response) {
            Ok(current) => if current == Some(desired) {
                ProgressView::Perform(
                    WriteStage::Committing { changed: false },
                    RequestView::CommitTransaction,
                )
            } else {
                ProgressView::Perform(
                    WriteStage::Writing,
                    RequestView::WriteValue { key, value: desired },
                )
            },
            Err(cause) => ProgressView::Finished(Err(registry_failure(key, cause))),
        },
        WriteStage::Writing => match response.completion() {
            Ok(_) => ProgressView::Perform(
                WriteStage::Committing { changed: true },
                RequestView::CommitTransaction,
            ),
            Err(cause) => ProgressView::Finished(Err(registry_failure(key, cause))),
        },
        WriteStage::Committing { changed } => match response.completion() {
            Ok(_) => ProgressView::Finished(Ok(changed)),
            Err(cause) => ProgressView::Finished(Err(registry_failure(key, cause))),
        },
    }
}

/// Starts the write of a setting that happens only if the stored value
/// differs from the desired one. The operation ends with whether a value was
/// written.
///
/// The comparison and the write happen inside one transaction, so no other
/// writer can come between them: the first request opens that transaction.
pub fn set_or_update_registry_value() -> (progress: Progress<WriteStage, bool>)
    ensures
        progress@ == spec_set_or_update_registry_value(),
{
    Progress::Perform(WriteStage::BeginningTransaction, Request::BeginTransaction)
}

/// Continues [`set_or_update_registry_value`] for `key` and `desired` from
/// `stage`, with the host's response to the request of that stage.
///
/// The key is opened inside the transaction, with the rights to query and
/// to set; a key that does not exist is created inside the transaction. The
/// stored value is read. If it equals `desired`, nothing is written and the
/// operation ends with `false` once the transaction is committed. If it
/// differs, or does not exist, `desired` is written and the operation ends
/// with `true` once the transaction is committed. That the key or the value
/// does not exist is thus never an error. Any other failure ends the
/// operation, uncommitted, with [`Error::RegistryOperationFailed`].
pub fn resume_set_or_update_registry_value(
    stage: WriteStage,
    key: ConfigKey,
    desired: &ConfigValue,
    response: Response,
) -> (progress: Progress<WriteStage, bool>)
    ensures
        progress@ == spec_resume_set_or_update_registry_value(stage, key, desired@, response@),
{
    match stage {
        WriteStage::BeginningTransaction => match response.completion() {
            Ok(_) => Progress::Perform(
                WriteStage::OpeningKey,
                Request::OpenKey { key, access: KeyAccess::QueryAndSet, transacted: true },
            ),
            Err(cause) => Progress::Finished(Err(Error::RegistryOperationFailed { key, cause })),
        },
        WriteStage::OpeningKey => match response.completion() {
            Ok(_) => Progress::Perform(WriteStage::ReadingCurrent, Request::ReadValue { key }),
            Err(IoFailure::NotFound) => Progress::Perform(
                WriteStage::CreatingKey,
                Request::CreateKey { key, access: KeyAccess::QueryAndSet, transacted: true },
            ),
            Err(cause) => Progress::Finished(Err(Error::RegistryOperationFailed { key, cause })),
        },
        WriteStage::CreatingKey => match response.completion() {
            Ok(_) => Progress::Perform(WriteStage::ReadingCurrent, Request::ReadValue { key }),
            Err(cause) => Progress::Finished(Err(Error::RegistryOperationFailed { key, cause })),
        },
        WriteStage::ReadingCurrent => match read_outcome(key, response) {
            Ok(Some(current)) => if current.same_as(desired) {
                Progress::Perform(
                    WriteStage::Committing { changed: false },
                    Request::CommitTransaction,
                )
            } else {
                Progress::Perform(
                    WriteStage::Writing,
                    Request::WriteValue { key, value: desired.clone() },
                )
            },
            Ok(None) => Progress::Perform(
                WriteStage::Writing,
                Request::WriteValue { key, value: desired.clone() },
            ),
            Err(cause) => Progress::Finished(Err(Error::RegistryOperationFailed { key, cause })),
        },
        WriteStage::Writing => match response.completion() {
            Ok(_) => Progress::Perform(
                WriteStage::Committing { changed: true },
                Request::CommitTransaction,
            ),
            Err(cause) => Progress::Finished(Err(Error::RegistryOperationFailed { key, cause })),
        },
        WriteStage::Committing { changed } => match response.completion() {
            Ok(_) => Progress::Finished(Ok(changed)),
            Err(cause) => Progress::Finished(Err(Error::RegistryOperationFailed { key, cause })),
        },
    }
}

} // verus!
