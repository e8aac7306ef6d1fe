use no_hidden_extensions::config::{ConfigKey, ConfigValue};
use no_hidden_extensions::err::{Error, IoFailure};
use no_hidden_extensions::host::{KeyAccess, Progress, Request, Response};
use no_hidden_extensions::process::ProcessEntry;
use no_hidden_extensions::shell::{
    restart_windows_explorer, resume_restart_windows_explorer, RestartStage,
};
use no_hidden_extensions::startup::{
    dont_run_this_program_at_startup, resume_dont_run_this_program_at_startup,
    resume_run_this_program_at_startup, resume_will_app_run_at_startup,
    run_this_program_at_startup, will_app_run_at_startup, RemovalStage,
};
use no_hidden_extensions::store::{
    begin_read, read_outcome, resume_set_or_update_registry_value, set_or_update_registry_value,
    ReadStage, WriteStage,
};
use no_hidden_extensions::visibility::{
    are_file_extensions_hidden, resume_are_file_extensions_hidden,
    resume_turn_off_file_extension_hiding, turn_off_file_extension_hiding, HidingStage,
};
use no_hidden_extensions::watcher::{
    message_for, next_backend_message, resume_next_backend_message,
    resume_wait_for_any_change_in_windows_explorer_regkey,
    wait_for_any_change_in_windows_explorer_regkey, BackendMessage, ListenStage, WaitStage,
};

const HIDE: ConfigKey = ConfigKey::HideFileExt;
const RUN: ConfigKey = ConfigKey::RunAtStartup;

fn path(text: &str) -> ConfigValue {
    ConfigValue::Path(String::from(text))
}

fn failed<T>(key: ConfigKey, cause: IoFailure) -> Result<T, Error> {
    Err(Error::RegistryOperationFailed { key, cause })
}

fn processes(names: &[(u32, &str)]) -> Response {
    Response::Processes(
        names
            .iter()
            .map(|(pid, name)| ProcessEntry { pid: *pid, image_name: name.as_bytes().to_vec() })
            .collect(),
    )
}

#[test]
fn a_response_reports_how_a_request_ended() {
    assert_eq!(Response::Done.completion(), Ok(()));
    assert_eq!(Response::Failed(IoFailure::NotFound).completion(), Err(IoFailure::NotFound));
    assert_eq!(Response::Failed(IoFailure::Other(5)).completion(), Err(IoFailure::Other(5)));
    assert_eq!(Response::Value(ConfigValue::Flag(0)).completion(), Err(IoFailure::InvalidData));
    assert_eq!(processes(&[]).completion(), Err(IoFailure::InvalidData));
}

#[test]
fn a_read_tells_a_missing_value_from_a_failure() {
    assert_eq!(read_outcome(HIDE, Response::Value(ConfigValue::Flag(7))), Ok(Some(ConfigValue::Flag(7))));
    assert_eq!(read_outcome(RUN, Response::Value(path("C:\\a.exe"))), Ok(Some(path("C:\\a.exe"))));
    assert_eq!(read_outcome(HIDE, Response::Failed(IoFailure::NotFound)), Ok(None));
    assert_eq!(read_outcome(RUN, Response::Failed(IoFailure::NotFound)), Ok(None));
    assert_eq!(read_outcome(HIDE, Response::Failed(IoFailure::Other(5))), Err(IoFailure::Other(5)));
    assert_eq!(
        read_outcome(HIDE, Response::Failed(IoFailure::InvalidData)),
        Err(IoFailure::InvalidData)
    );
    assert_eq!(read_outcome(HIDE, Response::Value(path("1"))), Err(IoFailure::InvalidData));
    assert_eq!(read_outcome(RUN, Response::Value(ConfigValue::Flag(1))), Err(IoFailure::InvalidData));
    assert_eq!(read_outcome(RUN, Response::Done), Err(IoFailure::InvalidData));
    assert_eq!(read_outcome(RUN, processes(&[])), Err(IoFailure::InvalidData));
}

#[test]
fn a_plain_read_opens_its_key_for_reading() {
    assert_eq!(
        begin_read(HIDE),
        (ReadStage::OpeningKey, Request::OpenKey { key: HIDE, access: KeyAccess::Read, transacted: false })
    );
    assert_eq!(
        begin_read(RUN),
        (ReadStage::OpeningKey, Request::OpenKey { key: RUN, access: KeyAccess::Read, transacted: false })
    );
}

#[test]
fn the_operations_start_with_their_first_request() {
    assert_eq!(
        set_or_update_registry_value(),
        Progress::Perform(WriteStage::BeginningTransaction, Request::BeginTransaction)
    );
    assert_eq!(
        are_file_extensions_hidden(),
        Progress::Perform(
            ReadStage::OpeningKey,
            Request::OpenKey { key: HIDE, access: KeyAccess::Read, transacted: false }
        )
    );
    assert_eq!(
        turn_off_file_extension_hiding(),
        Progress::Perform(
            HidingStage::Updating(WriteStage::BeginningTransaction),
            Request::BeginTransaction
        )
    );
    assert_eq!(
        will_app_run_at_startup(),
        Progress::Perform(
            ReadStage::OpeningKey,
            Request::OpenKey { key: RUN, access: KeyAccess::Read, transacted: false }
        )
    );
    assert_eq!(
        run_this_program_at_startup(Some("C:\\a.exe")),
        Progress::Perform(WriteStage::BeginningTransaction, Request::BeginTransaction)
    );
    assert_eq!(
        run_this_program_at_startup(None),
        Progress::Finished(Err(Error::ExecutablePathNotRepresentable))
    );
    assert_eq!(
        dont_run_this_program_at_startup(),
        Progress::Perform(
            RemovalStage::Checking(ReadStage::OpeningKey),
            Request::OpenKey { key: RUN, access: KeyAccess::Read, transacted: false }
        )
    );
    assert_eq!(
        restart_windows_explorer(),
        Progress::Perform(RestartStage::ListingProcesses, Request::ListProcesses)
    );
    assert_eq!(
        wait_for_any_change_in_windows_explorer_regkey(),
        Progress::Perform(
            WaitStage::OpeningKey,
            Request::OpenKey { key: HIDE, access: KeyAccess::Read, transacted: false }
        )
    );
    assert_eq!(
        next_backend_message(),
        Progress::Perform(
            ListenStage::Waiting(WaitStage::OpeningKey),
            Request::OpenKey { key: HIDE, access: KeyAccess::Read, transacted: false }
        )
    );
}

#[test]
fn a_conditional_write_goes_through_its_stages() {
    let desired = path("C:\\a.exe");
    let step = |stage, response| resume_set_or_update_registry_value(stage, RUN, &desired, response);
    assert_eq!(
        step(WriteStage::BeginningTransaction, Response::Done),
        Progress::Perform(
            WriteStage::OpeningKey,
            Request::OpenKey { key: RUN, access: KeyAccess::QueryAndSet, transacted: true }
        )
    );
    assert_eq!(
        step(WriteStage::OpeningKey, Response::Done),
        Progress::Perform(WriteStage::ReadingCurrent, Request::ReadValue { key: RUN })
    );
    assert_eq!(
        step(WriteStage::OpeningKey, Response::Failed(IoFailure::NotFound)),
        Progress::Perform(
            WriteStage::CreatingKey,
            Request::CreateKey { key: RUN, access: KeyAccess::QueryAndSet, transacted: true }
        )
    );
    assert_eq!(
        step(WriteStage::CreatingKey, Response::Done),
        Progress::Perform(WriteStage::ReadingCurrent, Request::ReadValue { key: RUN })
    );
    assert_eq!(
        step(WriteStage::ReadingCurrent, Response::Value(path("C:\\a.exe"))),
        Progress::Perform(WriteStage::Committing { changed: false }, Request::CommitTransaction)
    );
    assert_eq!(
        step(WriteStage::ReadingCurrent, Response::Value(path("C:\\b.exe"))),
        Progress::Perform(
            WriteStage::Writing,
            Request::WriteValue { key: RUN, value: path("C:\\a.exe") }
        )
    );
    assert_eq!(
        step(WriteStage::ReadingCurrent, Response::Failed(IoFailure::NotFound)),
        Progress::Perform(
            WriteStage::Writing,
            Request::WriteValue { key: RUN, value: path("C:\\a.exe") }
        )
    );
    assert_eq!(
        step(WriteStage::Writing, Response::Done),
        Progress::Perform(WriteStage::Committing { changed: true }, Request::CommitTransaction)
    );
    assert_eq!(step(WriteStage::Committing { changed: true }, Response::Done), Progress::Finished(Ok(true)));
    assert_eq!(step(WriteStage::Committing { changed: false }, Response::Done), Progress::Finished(Ok(false)));
}

#[test]
fn a_conditional_write_ends_on_any_failure() {
    let desired = ConfigValue::Flag(0);
    let stages = [
        WriteStage::BeginningTransaction,
        WriteStage::OpeningKey,
        WriteStage::CreatingKey,
        WriteStage::ReadingCurrent,
        WriteStage::Writing,
        WriteStage::Committing { changed: true },
        WriteStage::Committing { changed: false },
    ];
    for stage in stages {
        assert_eq!(
            resume_set_or_update_registry_value(stage, HIDE, &desired, Response::Failed(IoFailure::Other(5))),
            Progress::Finished(failed(HIDE, IoFailure::Other(5)))
        );
        assert_eq!(
            resume_set_or_update_registry_value(stage, HIDE, &desired, processes(&[])),
            Progress::Finished(failed(HIDE, IoFailure::InvalidData))
        );
        if stage != WriteStage::ReadingCurrent && stage != WriteStage::OpeningKey {
            assert_eq!(
                resume_set_or_update_registry_value(stage, HIDE, &desired, Response::Failed(IoFailure::NotFound)),
                Progress::Finished(failed(HIDE, IoFailure::NotFound))
            );
        }
        if stage != WriteStage::ReadingCurrent {
            assert_eq!(
                resume_set_or_update_registry_value(stage, HIDE, &desired, Response::Value(ConfigValue::Flag(0))),
                Progress::Finished(failed(HIDE, IoFailure::InvalidData))
            );
        }
    }
    assert_eq!(
        resume_set_or_update_registry_value(WriteStage::ReadingCurrent, HIDE, &desired, Response::Done),
        Progress::Finished(failed(HIDE, IoFailure::InvalidData))
    );
    assert_eq!(
        resume_set_or_update_registry_value(
            WriteStage::ReadingCurrent,
            HIDE,
            &desired,
            Response::Value(path("0"))
        ),
        Progress::Finished(failed(HIDE, IoFailure::InvalidData))
    );
}

#[test]
fn the_hidden_query_goes_through_its_stages() {
    assert_eq!(
        resume_are_file_extensions_hidden(ReadStage::OpeningKey, Response::Done),
        Progress::Perform(ReadStage::ReadingValue, Request::ReadValue { key: HIDE })
    );
    assert_eq!(
        resume_are_file_extensions_hidden(ReadStage::ReadingValue, Response::Value(ConfigValue::Flag(0))),
        Progress::Finished(Ok(false))
    );
    assert_eq!(
        resume_are_file_extensions_hidden(ReadStage::ReadingValue, Response::Value(ConfigValue::Flag(1))),
        Progress::Finished(Ok(true))
    );
    assert_eq!(
        resume_are_file_extensions_hidden(ReadStage::ReadingValue, Response::Failed(IoFailure::NotFound)),
        Progress::Finished(failed(HIDE, IoFailure::NotFound))
    );
    assert_eq!(
        resume_are_file_extensions_hidden(ReadStage::ReadingValue, Response::Value(path("1"))),
        Progress::Finished(failed(HIDE, IoFailure::InvalidData))
    );
    assert_eq!(
        resume_are_file_extensions_hidden(ReadStage::OpeningKey, Response::Failed(IoFailure::NotFound)),
        Progress::Finished(failed(HIDE, IoFailure::NotFound))
    );
    assert_eq!(
        resume_are_file_extensions_hidden(ReadStage::OpeningKey, Response::Value(ConfigValue::Flag(1))),
        Progress::Finished(failed(HIDE, IoFailure::InvalidData))
    );
}

#[test]
fn the_startup_query_goes_through_its_stages() {
    let here = Some("C:\\a.exe");
    assert_eq!(
        resume_will_app_run_at_startup(ReadStage::OpeningKey, here, Response::Done),
        Progress::Perform(ReadStage::ReadingValue, Request::ReadValue { key: RUN })
    );
    assert_eq!(
        resume_will_app_run_at_startup(ReadStage::OpeningKey, None, Response::Done),
        Progress::Perform(ReadStage::ReadingValue, Request::ReadValue { key: RUN })
    );
    assert_eq!(
        resume_will_app_run_at_startup(ReadStage::ReadingValue, here, Response::Value(path("C:\\a.exe"))),
        Progress::Finished(Ok(true))
    );
    assert_eq!(
        resume_will_app_run_at_startup(ReadStage::ReadingValue, here, Response::Value(path("C:\\A.exe"))),
        Progress::Finished(Ok(false))
    );
    assert_eq!(
        resume_will_app_run_at_startup(ReadStage::ReadingValue, here, Response::Value(path(""))),
        Progress::Finished(Ok(false))
    );
    assert_eq!(
        resume_will_app_run_at_startup(ReadStage::ReadingValue, here, Response::Failed(IoFailure::NotFound)),
        Progress::Finished(Ok(false))
    );
    assert_eq!(
        resume_will_app_run_at_startup(ReadStage::ReadingValue, None, Response::Failed(IoFailure::NotFound)),
        Progress::Finished(Ok(false))
    );
    assert_eq!(
        resume_will_app_run_at_startup(ReadStage::ReadingValue, None, Response::Value(path("C:\\a.exe"))),
        Progress::Finished(Err(Error::ExecutablePathNotRepresentable))
    );
    assert_eq!(
        resume_will_app_run_at_startup(ReadStage::ReadingValue, here, Response::Failed(IoFailure::Other(5))),
        Progress::Finished(failed(RUN, IoFailure::Other(5)))
    );
    assert_eq!(
        resume_will_app_run_at_startup(ReadStage::ReadingValue, here, Response::Value(ConfigValue::Flag(1))),
        Progress::Finished(failed(RUN, IoFailure::InvalidData))
    );
    assert_eq!(
        resume_will_app_run_at_startup(ReadStage::OpeningKey, here, Response::Failed(IoFailure::NotFound)),
        Progress::Finished(Ok(false))
    );
    assert_eq!(
        resume_will_app_run_at_startup(ReadStage::OpeningKey, None, Response::Failed(IoFailure::NotFound)),
        Progress::Finished(Ok(false))
    );
    assert_eq!(
        resume_will_app_run_at_startup(ReadStage::OpeningKey, here, Response::Failed(IoFailure::Other(5))),
        Progress::Finished(failed(RUN, IoFailure::Other(5)))
    );
    assert_eq!(
        resume_will_app_run_at_startup(ReadStage::OpeningKey, here, Response::Value(path("C:\\a.exe"))),
        Progress::Finished(failed(RUN, IoFailure::InvalidData))
    );
}

#[test]
fn a_registration_writes_the_executable_path() {
    assert_eq!(
        resume_run_this_program_at_startup(
            WriteStage::ReadingCurrent,
            Some("C:\\a.exe"),
            Response::Value(path("C:\\old\\a.exe"))
        ),
        Progress::Perform(
            WriteStage::Writing,
            Request::WriteValue { key: RUN, value: path("C:\\a.exe") }
        )
    );
    assert_eq!(
        resume_run_this_program_at_startup(
            WriteStage::ReadingCurrent,
            Some("C:\\a.exe"),
            Response::Value(path("C:\\a.exe"))
        ),
        Progress::Perform(WriteStage::Committing { changed: false }, Request::CommitTransaction)
    );
    assert_eq!(
        resume_run_this_program_at_startup(
            WriteStage::OpeningKey,
            Some("C:\\a.exe"),
            Response::Failed(IoFailure::NotFound)
        ),
        Progress::Perform(
            WriteStage::CreatingKey,
            Request::CreateKey { key: RUN, access: KeyAccess::QueryAndSet, transacted: true }
        )
    );
    assert_eq!(
        resume_run_this_program_at_startup(WriteStage::Writing, None, Response::Done),
        Progress::Finished(Err(Error::ExecutablePathNotRepresentable))
    );
}

#[test]
fn a_removal_goes_through_its_stages() {
    let here = Some("C:\\a.exe");
    assert_eq!(
        resume_dont_run_this_program_at_startup(
            RemovalStage::Checking(ReadStage::OpeningKey),
            here,
            Response::Done
        ),
        Progress::Perform(RemovalStage::Checking(ReadStage::ReadingValue), Request::ReadValue { key: RUN })
    );
    assert_eq!(
        resume_dont_run_this_program_at_startup(
            RemovalStage::Checking(ReadStage::ReadingValue),
            here,
            Response::Value(path("C:\\a.exe"))
        ),
        Progress::Perform(
            RemovalStage::OpeningKey,
            Request::OpenKey { key: RUN, access: KeyAccess::QueryAndSet, transacted: false }
        )
    );
    assert_eq!(
        resume_dont_run_this_program_at_startup(
            RemovalStage::Checking(ReadStage::ReadingValue),
            here,
            Response::Value(path("C:\\b.exe"))
        ),
        Progress::Finished(Ok(false))
    );
    assert_eq!(
        resume_dont_run_this_program_at_startup(
            RemovalStage::Checking(ReadStage::ReadingValue),
            here,
            Response::Failed(IoFailure::NotFound)
        ),
        Progress::Finished(Ok(false))
    );
    assert_eq!(
        resume_dont_run_this_program_at_startup(
            RemovalStage::Checking(ReadStage::OpeningKey),
            here,
            Response::Failed(IoFailure::NotFound)
        ),
        Progress::Finished(Ok(false))
    );
    assert_eq!(
        resume_dont_run_this_program_at_startup(
            RemovalStage::OpeningKey,
            here,
            Response::Failed(IoFailure::NotFound)
        ),
        Progress::Finished(failed(RUN, IoFailure::NotFound))
    );
    assert_eq!(
        resume_dont_run_this_program_at_startup(RemovalStage::OpeningKey, here, Response::Done),
        Progress::Perform(RemovalStage::Deleting, Request::DeleteValue { key: RUN })
    );
    assert_eq!(
        resume_dont_run_this_program_at_startup(RemovalStage::Deleting, here, Response::Done),
        Progress::Finished(Ok(true))
    );
    assert_eq!(
        resume_dont_run_this_program_at_startup(
            RemovalStage::OpeningKey,
            here,
            Response::Failed(IoFailure::Other(5))
        ),
        Progress::Finished(failed(RUN, IoFailure::Other(5)))
    );
    assert_eq!(
        resume_dont_run_this_program_at_startup(
            RemovalStage::Deleting,
            here,
            Response::Value(path("C:\\a.exe"))
        ),
        Progress::Finished(failed(RUN, IoFailure::InvalidData))
    );
}

#[test]
fn a_restart_goes_through_its_stages() {
    assert_eq!(
        resume_restart_windows_explorer(
            RestartStage::ListingProcesses,
            processes(&[(8, "cmd.exe"), (4012, "explorer.exe\0\0\0\0")])
        ),
        Progress::Perform(
            RestartStage::Terminating,
            Request::TerminateProcess { pid: 4012, exit_code: 0 }
        )
    );
    assert_eq!(
        resume_restart_windows_explorer(RestartStage::ListingProcesses, processes(&[(8, "cmd.exe")])),
        Progress::Finished(Err(Error::UnableToRestartShell))
    );
    assert_eq!(
        resume_restart_windows_explorer(RestartStage::ListingProcesses, Response::Done),
        Progress::Finished(Err(Error::UnableToRestartShell))
    );
    assert_eq!(
        resume_restart_windows_explorer(
            RestartStage::ListingProcesses,
            Response::Failed(IoFailure::Other(5))
        ),
        Progress::Finished(Err(Error::UnableToRestartShell))
    );
    assert_eq!(
        resume_restart_windows_explorer(RestartStage::Terminating, Response::Done),
        Progress::Finished(Ok(()))
    );
    assert_eq!(
        resume_restart_windows_explorer(RestartStage::Terminating, Response::Failed(IoFailure::Other(5))),
        Progress::Finished(Err(Error::UnableToRestartShell))
    );
    assert_eq!(
        resume_restart_windows_explorer(RestartStage::Terminating, processes(&[])),
        Progress::Finished(Err(Error::UnableToRestartShell))
    );
}

#[test]
fn showing_extensions_creates_a_key_that_does_not_exist() {
    assert_eq!(
        resume_turn_off_file_extension_hiding(
            HidingStage::Updating(WriteStage::OpeningKey),
            Response::Failed(IoFailure::NotFound)
        ),
        Progress::Perform(
            HidingStage::Updating(WriteStage::CreatingKey),
            Request::CreateKey { key: HIDE, access: KeyAccess::QueryAndSet, transacted: true }
        )
    );
    assert_eq!(
        resume_turn_off_file_extension_hiding(
            HidingStage::Updating(WriteStage::CreatingKey),
            Response::Done
        ),
        Progress::Perform(
            HidingStage::Updating(WriteStage::ReadingCurrent),
            Request::ReadValue { key: HIDE }
        )
    );
    assert_eq!(
        resume_turn_off_file_extension_hiding(
            HidingStage::Updating(WriteStage::CreatingKey),
            Response::Failed(IoFailure::Other(5))
        ),
        Progress::Finished(failed(HIDE, IoFailure::Other(5)))
    );
}

#[test]
fn showing_extensions_goes_from_the_write_to_the_restart() {
    assert_eq!(
        resume_turn_off_file_extension_hiding(
            HidingStage::Updating(WriteStage::ReadingCurrent),
            Response::Value(ConfigValue::Flag(1))
        ),
        Progress::Perform(
            HidingStage::Updating(WriteStage::Writing),
            Request::WriteValue { key: HIDE, value: ConfigValue::Flag(0) }
        )
    );
    assert_eq!(
        resume_turn_off_file_extension_hiding(
            HidingStage::Updating(WriteStage::Committing { changed: true }),
            Response::Done
        ),
        Progress::Perform(HidingStage::Restarting(RestartStage::ListingProcesses), Request::ListProcesses)
    );
    assert_eq!(
        resume_turn_off_file_extension_hiding(
            HidingStage::Updating(WriteStage::Committing { changed: false }),
            Response::Done
        ),
        Progress::Finished(Ok(false))
    );
    assert_eq!(
        resume_turn_off_file_extension_hiding(
            HidingStage::Updating(WriteStage::Committing { changed: true }),
            Response::Failed(IoFailure::Other(6700))
        ),
        Progress::Finished(failed(HIDE, IoFailure::Other(6700)))
    );
    assert_eq!(
        resume_turn_off_file_extension_hiding(
            HidingStage::Restarting(RestartStage::ListingProcesses),
            processes(&[(4012, "explorer.exe")])
        ),
        Progress::Perform(
            HidingStage::Restarting(RestartStage::Terminating),
            Request::TerminateProcess { pid: 4012, exit_code: 0 }
        )
    );
    assert_eq!(
        resume_turn_off_file_extension_hiding(
            HidingStage::Restarting(RestartStage::Terminating),
            Response::Done
        ),
        Progress::Finished(Ok(true))
    );
    assert_eq!(
        resume_turn_off_file_extension_hiding(
            HidingStage::Restarting(RestartStage::Terminating),
            Response::Failed(IoFailure::Other(5))
        ),
        Progress::Finished(Err(Error::UnableToRestartShell))
    );
}

#[test]
fn a_wait_goes_through_its_stages() {
    assert_eq!(
        resume_wait_for_any_change_in_windows_explorer_regkey(WaitStage::OpeningKey, Response::Done),
        Progress::Perform(
            WaitStage::Waiting,
            Request::AwaitChange { key: HIDE, watch_subtree: false, timeout_ms: u32::MAX }
        )
    );
    assert_eq!(
        resume_wait_for_any_change_in_windows_explorer_regkey(WaitStage::Waiting, Response::Done),
        Progress::Finished(Ok(()))
    );
    assert_eq!(
        resume_wait_for_any_change_in_windows_explorer_regkey(
            WaitStage::Waiting,
            Response::Failed(IoFailure::Other(6))
        ),
        Progress::Finished(failed(HIDE, IoFailure::Other(6)))
    );
    assert_eq!(
        resume_wait_for_any_change_in_windows_explorer_regkey(
            WaitStage::OpeningKey,
            Response::Failed(IoFailure::NotFound)
        ),
        Progress::Finished(failed(HIDE, IoFailure::NotFound))
    );
}

#[test]
fn the_listener_reads_after_each_wait_and_tells_what_it_read() {
    assert_eq!(
        resume_next_backend_message(ListenStage::Waiting(WaitStage::OpeningKey), Response::Done),
        Progress::Perform(
            ListenStage::Waiting(WaitStage::Waiting),
            Request::AwaitChange { key: HIDE, watch_subtree: false, timeout_ms: u32::MAX }
        )
    );
    assert_eq!(
        resume_next_backend_message(ListenStage::Waiting(WaitStage::Waiting), Response::Done),
        Progress::Perform(
            ListenStage::Reading(ReadStage::OpeningKey),
            Request::OpenKey { key: HIDE, access: KeyAccess::Read, transacted: false }
        )
    );
    assert_eq!(
        resume_next_backend_message(ListenStage::Reading(ReadStage::OpeningKey), Response::Done),
        Progress::Perform(ListenStage::Reading(ReadStage::ReadingValue), Request::ReadValue { key: HIDE })
    );
    assert_eq!(
        resume_next_backend_message(
            ListenStage::Reading(ReadStage::ReadingValue),
            Response::Value(ConfigValue::Flag(1))
        ),
        Progress::Finished(Ok(BackendMessage::FileExtensionsAreNowHidden))
    );
    assert_eq!(
        resume_next_backend_message(
            ListenStage::Reading(ReadStage::ReadingValue),
            Response::Value(ConfigValue::Flag(0))
        ),
        Progress::Finished(Ok(BackendMessage::FileExtensionsAreNoLongerHidden))
    );
    assert_eq!(
        resume_next_backend_message(
            ListenStage::Reading(ReadStage::ReadingValue),
            Response::Failed(IoFailure::NotFound)
        ),
        Progress::Finished(failed(HIDE, IoFailure::NotFound))
    );
    assert_eq!(message_for(true), BackendMessage::FileExtensionsAreNowHidden);
    assert_eq!(message_for(false), BackendMessage::FileExtensionsAreNoLongerHidden);
}
