//! Restarting the file manager, so that it picks up changed settings.

use crate::err::{Error, ErrorView};
use crate::host::{Progress, ProgressView, Request, RequestView, Response, ResponseView};
use crate::process::{find_process_id_in_snapshot, first_with_name, records_of};
use vstd::prelude::*;

verus! {

/// The image name of the file manager's process.
pub const SHELL_IMAGE_NAME: &'static str = "explorer.exe";

/// The exit code with which the file manager's process is terminated.
pub const SHELL_EXIT_CODE: u32 = 0;

/// The stages of a restart of the file manager.
#[derive(Clone, Copy, Debug, PartialEq, Eq, Structural)]
pub enum RestartStage {
    /// The snapshot of the running processes is being taken.
    ListingProcesses,
    /// The file manager's process is being terminated.
    Terminating,
}

/// The first step of [`restart_windows_explorer`].
pub open spec fn spec_restart_windows_explorer() -> ProgressView<RestartStage, ()> {
    ProgressView::Perform(RestartStage::ListingProcesses, RequestView::ListProcesses)
}

/// What [`resume_restart_windows_explorer`] answers.
pub open spec fn spec_resume_restart_windows_explorer(
    stage: RestartStage,
    response: ResponseView,
) -> ProgressView<RestartStage, ()> {
    match stage {
        RestartStage::ListingProcesses => match response {
            ResponseView::Processes(entries) => match first_with_name(
                records_of(entries),
                SHELL_IMAGE_NAME@,
            ) {
                Some(pid) => ProgressView::Perform(
                    RestartStage::Terminating,
                    RequestView::TerminateProcess { pid, exit_code: SHELL_EXIT_CODE },
                ),
                None => ProgressView::Finished(Err(ErrorView::UnableToRestartShell)),
            },
            _ => ProgressView::Finished(Err(ErrorView::UnableToRestartShell)),
        },
        RestartStage::Terminating => match response.completion() {
            Ok(_) => ProgressView::Finished(Ok(())),
            Err(_) => ProgressView::Finished(Err(ErrorView::UnableToRestartShell)),
        },
    }
}

/// Starts a restart of the file manager: its process is terminated, and the
/// operating system is relied upon to start it again. Windows that the file
/// manager had open are lost. The first request takes a snapshot of the
/// running processes.
pub fn restart_windows_explorer() -> (progress: Progress<RestartStage, ()>)
    ensures
        progress@ == spec_restart_windows_explorer(),
{
    Progress::Perform(RestartStage::ListingProcesses, Request::ListProcesses)
}

/// Continues [`restart_windows_explorer`] from `stage`, with the host's
/// response to the request of that stage.
///
/// The file manager is looked up in the snapshot by its exact image name, and
/// the first process of that name is terminated. The operation does not wait
/// for the file manager to come back. Whatever goes wrong (no such process,
/// no snapshot, a process that cannot be opened or terminated) ends the
/// operation with [`Error::UnableToRestartShell`].
pub fn resume_restart_windows_explorer(stage: RestartStage, response: Response) -> (progress:
    Progress<RestartStage, ()>)
    ensures
        progress@ == spec_resume_restart_windows_explorer(stage, response@),
{
    match stage {
        RestartStage::ListingProcesses => match response {
            Response::Processes(entries) => match find_process_id_in_snapshot(
                &entries,
                SHELL_IMAGE_NAME,
            ) {
                Ok(pid) => Progress::Perform(
                    RestartStage::Terminating,
                    Request::TerminateProcess { pid, exit_code: SHELL_EXIT_CODE },
                ),
                Err(_) => Progress::Finished(Err(Error::UnableToRestartShell)),
            },
            _ => Progress::Finished(Err(Error::UnableToRestartShell)),
        },
        RestartStage::Terminating => match response.completion() {
            Ok(_) => Progress::Finished(Ok(())),
            Err(_) => Progress::Finished(Err(Error::UnableToRestartShell)),
        },
    }
}

} // verus!
