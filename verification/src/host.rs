//! The boundary between the library and the machine it runs on.
//!
//! The library never touches the registry or the process table itself. An
//! operation hands out a [`Request`]; the host carries it out and hands back a
//! [`Response`]; the operation then says what comes next, as a [`Progress`].
//! A host therefore needs one loop and one function that performs a request,
//! and takes no decision of its own.

use crate::config::{ConfigKey, ConfigValue, ConfigValueView};
use crate::err::{Error, ErrorView, IoFailure};
use crate::process::{entry_views, ProcessEntry, ProcessEntryView};
use vstd::prelude::*;

verus! {

/// The rights with which a registry key is opened.
#[derive(Clone, Copy, Debug, PartialEq, Eq, Structural)]
pub enum KeyAccess {
    /// Enough to read the key's values and to be told of changes to them.
    Read,
    /// Enough to query, set and delete the key's values.
    QueryAndSet,
}

/// Something for the host to do on the machine.
#[derive(Debug, PartialEq, Eq)]
pub enum Request {
    /// Open a registry transaction. Keys opened as `transacted` belong to it,
    /// and what is written through them takes effect when it is committed.
    BeginTransaction,
    /// Open the subkey of `key`. The requests that follow, up to the next
    /// `OpenKey` or `CreateKey`, act on the key so opened.
    OpenKey { key: ConfigKey, access: KeyAccess, transacted: bool },
    /// Create the subkey of `key`, or open it if it exists by now, and hold
    /// it open as `OpenKey` does. A subkey created as `transacted` comes to
    /// be when the transaction is committed.
    CreateKey { key: ConfigKey, access: KeyAccess, transacted: bool },
    /// Read the value of `key` from the open key.
    ReadValue { key: ConfigKey },
    /// Store `value` as the value of `key` in the open key.
    WriteValue { key: ConfigKey, value: ConfigValue },
    /// Delete the value of `key` from the open key.
    DeleteValue { key: ConfigKey },
    /// Commit the open transaction.
    CommitTransaction,
    /// Take a snapshot of the running processes.
    ListProcesses,
    /// Open the process `pid` with the right to terminate it and nothing
    /// more, and terminate it with `exit_code`.
    TerminateProcess { pid: u32, exit_code: u32 },
    /// Block until a value under the open key changes. With `watch_subtree`
    /// changes below its subkeys count too. `timeout_ms` bounds the wait;
    /// `u32::MAX` stands for no bound.
    AwaitChange { key: ConfigKey, watch_subtree: bool, timeout_ms: u32 },
}

/// What a [`Request`] holds, as a mathematical value.
pub enum RequestView {
    BeginTransaction,
    OpenKey { key: ConfigKey, access: KeyAccess, transacted: bool },
    CreateKey { key: ConfigKey, access: KeyAccess, transacted: bool },
    ReadValue { key: ConfigKey },
    WriteValue { key: ConfigKey, value: ConfigValueView },
    DeleteValue { key: ConfigKey },
    CommitTransaction,
    ListProcesses,
    TerminateProcess { pid: u32, exit_code: u32 },
    AwaitChange { key: ConfigKey, watch_subtree: bool, timeout_ms: u32 },
}

impl View for Request {
    type V = RequestView;

    open spec fn view(&self) -> RequestView {
        match self {
            Request::BeginTransaction => RequestView::BeginTransaction,
            Request::OpenKey { key, access, transacted } => RequestView::OpenKey {
                key: *key,
                access: *access,
                transacted: *transacted,
            },
            Request::CreateKey { key, access, transacted } => RequestView::CreateKey {
                key: *key,
                access: *access,
                transacted: *transacted,
            },
            Request::ReadValue { key } => RequestView::ReadValue { key: *key },
            Request::WriteValue { key, value } => RequestView::WriteValue {
                key: *key,
                value: value@,
            },
            Request::DeleteValue { key } => RequestView::DeleteValue { key: *key },
            Request::CommitTransaction => RequestView::CommitTransaction,
            Request::ListProcesses => RequestView::ListProcesses,
            Request::TerminateProcess { pid, exit_code } => RequestView::TerminateProcess {
                pid: *pid,
                exit_code: *exit_code,
            },
            Request::AwaitChange { key, watch_subtree, timeout_ms } => RequestView::AwaitChange {
                key: *key,
                watch_subtree: *watch_subtree,
                timeout_ms: *timeout_ms,
            },
        }
    }
}

/// What the host reports of a request that it has carried out.
#[derive(Debug, PartialEq, Eq)]
pub enum Response {
    /// The request succeeded and there is nothing to report.
    Done,
    /// The value that was read.
    Value(ConfigValue),
    /// The processes of the snapshot, in the order of the snapshot.
    Processes(Vec<ProcessEntry>),
    /// The request failed.
    Failed(IoFailure),
}

/// What a [`Response`] holds, as a mathematical value.
pub enum ResponseView {
    Done,
    Value(ConfigValueView),
    Processes(Seq<ProcessEntryView>),
    Failed(IoFailure),
}

impl View for Response {
    type V = ResponseView;

    open spec fn view(&self) -> ResponseView {
        match self {
            Response::Done => ResponseView::Done,
            Response::Value(value) => ResponseView::Value(value@),
            Response::Processes(entries) => ResponseView::Processes(entry_views(entries@)),
            Response::Failed(cause) => ResponseView::Failed(*cause),
        }
    }
}

impl ResponseView {
    /// How a request that reports nothing ended. A response of another form
    /// counts as a failure.
    pub open spec fn completion(self) -> Result<(), IoFailure> {
        match self {
            ResponseView::Done => Ok(()),
            ResponseView::Failed(cause) => Err(cause),
            _ => Err(IoFailure::InvalidData),
        }
    }
}

impl Response {
    /// How a request that reports nothing ended. A response of another form
    /// counts as a failure.
    pub fn completion(&self) -> (outcome: Result<(), IoFailure>)
        ensures
            outcome == self@.completion(),
    {
        match self {
            Response::Done => Ok(()),
            Response::Failed(cause) => Err(*cause),
            _ => Err(IoFailure::InvalidData),
        }
    }
}

/// Where an operation stands: it either waits for the host to carry out a
/// request, at a stage that it will be resumed from, or has ended.
#[derive(Debug, PartialEq, Eq)]
pub enum Progress<S, T> {
    Perform(S, Request),
    Finished(Result<T, Error>),
}

/// What a [`Progress`] holds, as a mathematical value.
pub enum ProgressView<S, T> {
    Perform(S, RequestView),
    Finished(Result<T, ErrorView>),
}

impl<S, T> View for Progress<S, T> {
    type V = ProgressView<S, T>;

    open spec fn view(&self) -> ProgressView<S, T> {
        match self {
            Progress::Perform(stage, request) => ProgressView::Perform(*stage, request@),
            Progress::Finished(Ok(value)) => ProgressView::Finished(Ok(*value)),
            Progress::Finished(Err(error)) => ProgressView::Finished(Err(error@)),
        }
    }
}

} // verus!
