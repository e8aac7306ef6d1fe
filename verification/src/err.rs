//! The ways in which an operation can fail. None is retried: each ends the
//! operation that met it.

use crate::config::ConfigKey;
use vstd::prelude::*;
use vstd::string::*;

verus! {

/// Why the machine could not carry out a request.
#[derive(Clone, Copy, Debug, PartialEq, Eq, Structural)]
pub enum IoFailure {
    /// The key or value asked for does not exist.
    NotFound,
    /// What came back does not have the form that the request calls for.
    InvalidData,
    /// Any other failure, with the code that the operating system gave (zero
    /// where it gave none).
    Other(i32),
}

/// An error that ends an operation.
#[derive(Debug, PartialEq, Eq)]
pub enum Error {
    /// The path of the running executable cannot be had as text.
    ExecutablePathNotRepresentable,
    /// The registry refused an operation on `key`, for a reason other than a
    /// value that is merely absent on a read.
    RegistryOperationFailed { key: ConfigKey, cause: IoFailure },
    /// No running process has exactly this image name.
    ProcessNotFound { name: String },
    /// The file manager could not be found or could not be terminated, so it
    /// did not pick up the changed settings.
    UnableToRestartShell,
}

/// What an [`Error`] holds, as a mathematical value.
pub enum ErrorView {
    ExecutablePathNotRepresentable,
    RegistryOperationFailed { key: ConfigKey, cause: IoFailure },
    ProcessNotFound { name: Seq<char> },
    UnableToRestartShell,
}

impl View for Error {
    type V = ErrorView;

    open spec fn view(&self) -> ErrorView {
        match self {
            Error::ExecutablePathNotRepresentable => ErrorView::ExecutablePathNotRepresentable,
            Error::RegistryOperationFailed { key, cause } => ErrorView::RegistryOperationFailed {
                key: *key,
                cause: *cause,
            },
            Error::ProcessNotFound { name } => ErrorView::ProcessNotFound { name: name@ },
            Error::UnableToRestartShell => ErrorView::UnableToRestartShell,
        }
    }
}

impl ErrorView {
    /// The text that describes the error to a user.
    pub open spec fn message(self) -> Seq<char> {
        match self {
            ErrorView::ExecutablePathNotRepresentable =>
                "The current executable path could not be converted into a UTF-8 string"@,
            ErrorView::RegistryOperationFailed { key, cause } =>
                "Failed to look up registry data for key "@ + key.spec_subkey_path()
                    + " and value "@ + key.spec_value_name() + " with error"@,
            ErrorView::ProcessNotFound { name } =>
                "Failed to find a running process with name "@ + name,
            ErrorView::UnableToRestartShell =>
                "Failed to restart Windows Explorer in order for it to pick up registry changes"@,
        }
    }
}

impl Error {
    /// The text that describes the error to a user.
    pub fn message(&self) -> (text: String)
        ensures
            text@ == self@.message(),
    {
        match self {
            Error::ExecutablePathNotRepresentable => String::from_str(
                "The current executable path could not be converted into a UTF-8 string",
            ),
            Error::RegistryOperationFailed { key, cause: _ } => {
                let mut text = String::from_str("Failed to look up registry data for key ");
                text.append(key.subkey_path());
                text.append(" and value ");
                text.append(key.value_name());
                text.append(" with error");
                text
            },
            Error::ProcessNotFound { name } => {
                let mut text = String::from_str("Failed to find a running process with name ");
                text.append(name.as_str());
                text
            },
            Error::UnableToRestartShell => String::from_str(
                "Failed to restart Windows Explorer in order for it to pick up registry changes",
            ),
        }
    }
}

impl Clone for Error {
    fn clone(&self) -> (copy: Error)
        ensures
            copy@ == self@,
    {
        match self {
            Error::ExecutablePathNotRepresentable => Error::ExecutablePathNotRepresentable,
            Error::RegistryOperationFailed { key, cause } => Error::RegistryOperationFailed {
                key: *key,
                cause: *cause,
            },
            Error::ProcessNotFound { name } => Error::ProcessNotFound { name: name.clone() },
            Error::UnableToRestartShell => Error::UnableToRestartShell,
        }
    }
}

} // verus!
