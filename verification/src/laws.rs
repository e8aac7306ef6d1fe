//! What the operations do when they run against a machine of the model.
//!
//! Each law is a theorem about every machine that meets its premises. The
//! laws that speak of a machine on which nothing fails say so by
//! [`Machine::faultless`]; the others hold whatever fails on the way.

use crate::config::{ConfigKey, ConfigValueView};
use crate::err::{ErrorView, IoFailure};
use crate::host::{KeyAccess, ProgressView, RequestView, ResponseView};
use crate::model::{run, step_bound, watched_key, Machine, OpenedKey, Run};
use crate::process::{first_with_name, records_of, ProcessEntryView};
use crate::shell::{
    spec_restart_windows_explorer, spec_resume_restart_windows_explorer, RestartStage,
    SHELL_EXIT_CODE, SHELL_IMAGE_NAME,
};
use crate::startup::{
    spec_dont_run_this_program_at_startup, spec_resume_dont_run_this_program_at_startup,
    spec_resume_run_this_program_at_startup, spec_resume_will_app_run_at_startup,
    spec_run_this_program_at_startup, spec_will_app_run_at_startup, RemovalStage,
};
use crate::store::{
    spec_resume_set_or_update_registry_value, spec_set_or_update_registry_value, ReadStage,
    WriteStage,
};
use crate::visibility::{
    spec_are_file_extensions_hidden, spec_resume_are_file_extensions_hidden,
    spec_resume_turn_off_file_extension_hiding, spec_turn_off_file_extension_hiding, HidingStage,
    EXTENSIONS_VISIBLE,
};
use crate::watcher::{
    spec_message_for, spec_next_backend_message, spec_resume_next_backend_message,
    spec_resume_wait_for_any_change_in_windows_explorer_regkey,
    spec_wait_for_any_change_in_windows_explorer_regkey, BackendMessage, ListenStage, WaitStage,
    NO_TIMEOUT,
};
use vstd::prelude::*;

verus! {

/// The run of [`crate::store::set_or_update_registry_value`] for `key` and
/// `desired` against `machine`.
pub open spec fn set_or_update_run(machine: Machine, key: ConfigKey, desired: ConfigValueView) -> Run<
    bool,
> {
    run(write_resumer(key, desired), spec_set_or_update_registry_value(), machine, step_bound())
}

/// How a conditional write of `desired` under `key` goes on from a stage
/// and the answer to the request of that stage.
pub open spec fn write_resumer(key: ConfigKey, desired: ConfigValueView) -> spec_fn(
    WriteStage,
    ResponseView,
) -> ProgressView<WriteStage, bool> {
    |stage: WriteStage, response: ResponseView|
        spec_resume_set_or_update_registry_value(stage, key, desired, response)
}

/// How the operation that shows extensions goes on from a stage and the
/// answer to the request of that stage.
pub open spec fn hiding_resumer() -> spec_fn(HidingStage, ResponseView) -> ProgressView<
    HidingStage,
    bool,
> {
    |stage: HidingStage, response: ResponseView|
        spec_resume_turn_off_file_extension_hiding(stage, response)
}

/// How a restart of the file manager goes on from a stage and the answer to
/// the request of that stage.
pub open spec fn restart_resumer() -> spec_fn(RestartStage, ResponseView) -> ProgressView<
    RestartStage,
    (),
> {
    |stage: RestartStage, response: ResponseView|
        spec_resume_restart_windows_explorer(stage, response)
}

/// The run of [`crate::startup::will_app_run_at_startup`] against `machine`,
/// for a running executable at `executable`.
pub open spec fn will_run_at_startup_run(machine: Machine, executable: Option<Seq<char>>) -> Run<
    bool,
> {
    run(
        |stage: ReadStage, response: ResponseView|
            spec_resume_will_app_run_at_startup(stage, executable, response),
        spec_will_app_run_at_startup(),
        machine,
        step_bound(),
    )
}

/// The run of [`crate::startup::run_this_program_at_startup`] against
/// `machine`, for a running executable at `executable`.
pub open spec fn register_run(machine: Machine, executable: Option<Seq<char>>) -> Run<bool> {
    run(
        |stage: WriteStage, response: ResponseView|
            spec_resume_run_this_program_at_startup(stage, executable, response),
        spec_run_this_program_at_startup(executable),
        machine,
        step_bound(),
    )
}

/// The run of [`crate::startup::dont_run_this_program_at_startup`] against
/// `machine`, for a running executable at `executable`.
pub open spec fn unregister_run(machine: Machine, executable: Option<Seq<char>>) -> Run<bool> {
    run(
        |stage: RemovalStage, response: ResponseView|
            spec_resume_dont_run_this_program_at_startup(stage, executable, response),
        spec_dont_run_this_program_at_startup(),
        machine,
        step_bound(),
    )
}

/// The run of [`crate::visibility::are_file_extensions_hidden`] against
/// `machine`.
pub open spec fn hidden_run(machine: Machine) -> Run<bool> {
    run(
        |stage: ReadStage, response: ResponseView|
            spec_resume_are_file_extensions_hidden(stage, response),
        spec_are_file_extensions_hidden(),
        machine,
        step_bound(),
    )
}

/// The run of [`crate::visibility::turn_off_file_extension_hiding`] against
/// `machine`.
pub open spec fn turn_off_run(machine: Machine) -> Run<bool> {
    run(hiding_resumer(), spec_turn_off_file_extension_hiding(), machine, step_bound())
}

/// The run of [`crate::shell::restart_windows_explorer`] against `machine`.
pub open spec fn restart_run(machine: Machine) -> Run<()> {
    run(restart_resumer(), spec_restart_windows_explorer(), machine, step_bound())
}

/// The run of
/// [`crate::watcher::wait_for_any_change_in_windows_explorer_regkey`]
/// against `machine`.
pub open spec fn wait_run(machine: Machine) -> Run<()> {
    run(
        |stage: WaitStage, response: ResponseView|
            spec_resume_wait_for_any_change_in_windows_explorer_regkey(stage, response),
        spec_wait_for_any_change_in_windows_explorer_regkey(),
        machine,
        step_bound(),
    )
}

/// The run of [`crate::watcher::next_backend_message`] against `machine`.
pub open spec fn listen_run(machine: Machine) -> Run<BackendMessage> {
    run(
        |stage: ListenStage, response: ResponseView|
            spec_resume_next_backend_message(stage, response),
        spec_next_backend_message(),
        machine,
        step_bound(),
    )
}

/// The requests of a conditional write that finds the desired value stored:
/// nothing is written.
pub open spec fn requests_of_kept_value(key: ConfigKey) -> Seq<RequestView> {
    seq![
        RequestView::BeginTransaction,
        RequestView::OpenKey { key, access: KeyAccess::QueryAndSet, transacted: true },
        RequestView::ReadValue { key },
        RequestView::CommitTransaction,
    ]
}

/// The requests of a conditional write that finds another value stored, or
/// none: the desired value is written, once.
pub open spec fn requests_of_changed_value(key: ConfigKey, desired: ConfigValueView) -> Seq<
    RequestView,
> {
    seq![
        RequestView::BeginTransaction,
        RequestView::OpenKey { key, access: KeyAccess::QueryAndSet, transacted: true },
        RequestView::ReadValue { key },
        RequestView::WriteValue { key, value: desired },
        RequestView::CommitTransaction,
    ]
}

/// The requests of a conditional write that finds the key missing: the key
/// is created, and the desired value is written, once.
pub open spec fn requests_of_created_value(key: ConfigKey, desired: ConfigValueView) -> Seq<
    RequestView,
> {
    seq![
        RequestView::BeginTransaction,
        RequestView::OpenKey { key, access: KeyAccess::QueryAndSet, transacted: true },
        RequestView::CreateKey { key, access: KeyAccess::QueryAndSet, transacted: true },
        RequestView::ReadValue { key },
        RequestView::WriteValue { key, value: desired },
        RequestView::CommitTransaction,
    ]
}

/// The requests of a conditional write of `desired` under `key` on
/// `machine`, if nothing fails.
pub open spec fn requests_of_write(machine: Machine, key: ConfigKey, desired: ConfigValueView) -> Seq<
    RequestView,
> {
    if machine.stored(key) == Some(desired) {
        requests_of_kept_value(key)
    } else if machine.subkeys.contains(key) {
        requests_of_changed_value(key, desired)
    } else {
        requests_of_created_value(key, desired)
    }
}

/// The requests of a query that finds the key missing: the attempt to open
/// it, and nothing more.
pub open spec fn requests_of_refused_read(key: ConfigKey) -> Seq<RequestView> {
    seq![RequestView::OpenKey { key, access: KeyAccess::Read, transacted: false }]
}

/// The requests of a query for the value of `key` on `machine`, if nothing
/// fails.
pub open spec fn requests_of_query(machine: Machine, key: ConfigKey) -> Seq<RequestView> {
    if machine.subkeys.contains(key) {
        requests_of_read(key)
    } else {
        requests_of_refused_read(key)
    }
}

/// The requests of a plain read of `key`.
pub open spec fn requests_of_read(key: ConfigKey) -> Seq<RequestView> {
    seq![
        RequestView::OpenKey { key, access: KeyAccess::Read, transacted: false },
        RequestView::ReadValue { key },
    ]
}

/// What holds of a conditional write of `desired` under `key` that ran, in
/// whole or from some stage on, on a machine that was `before` when the
/// write began, and made at most `limit` requests.
pub open spec fn write_settled(
    before: Machine,
    key: ConfigKey,
    desired: ConfigValueView,
    outcome: Run<bool>,
    limit: nat,
) -> bool {
    &&& outcome.requests.len() <= limit
    &&& outcome.machine.processes == before.processes
    &&& match outcome.result {
        Some(Ok(true)) => outcome.machine.registry =~= before.registry.insert(key, desired)
            && outcome.machine.subkeys =~= before.subkeys.insert(key),
        Some(Ok(false)) => outcome.machine.registry =~= before.registry && before.stored(key)
            == Some(desired) && outcome.machine.subkeys =~= before.subkeys.insert(key),
        Some(Err(error)) => outcome.machine.registry =~= before.registry
            && outcome.machine.subkeys =~= before.subkeys
            && error is RegistryOperationFailed,
        None => false,
    }
}

/// The machine `now` is inside the transaction of a write that began on
/// `before`: nothing is committed yet, and the transaction sees `values`
/// under `subkeys`.
pub open spec fn staged(
    now: Machine,
    before: Machine,
    values: Map<ConfigKey, ConfigValueView>,
    subkeys: Set<ConfigKey>,
) -> bool {
    &&& now.registry == before.registry
    &&& now.subkeys == before.subkeys
    &&& now.processes == before.processes
    &&& now.transaction is Some
    &&& now.transaction->0.values =~= values
    &&& now.transaction->0.subkeys =~= subkeys
}

/// The key that a conditional write holds open once it has opened or
/// created it.
pub open spec fn held_for_write(key: ConfigKey) -> Option<OpenedKey> {
    Some(OpenedKey { key, access: KeyAccess::QueryAndSet, transacted: true })
}

proof fn lemma_write_from_commit(
    now: Machine,
    before: Machine,
    key: ConfigKey,
    desired: ConfigValueView,
    changed: bool,
    steps: nat,
)
    requires
        steps >= 1,
        staged(
            now,
            before,
            if changed {
                before.registry.insert(key, desired)
            } else {
                before.registry
            },
            before.subkeys.insert(key),
        ),
        !changed ==> before.stored(key) == Some(desired),
    ensures
        write_settled(
            before,
            key,
            desired,
            run(
                write_resumer(key, desired),
                ProgressView::Perform(
                    WriteStage::Committing { changed },
                    RequestView::CommitTransaction,
                ),
                now,
                steps,
            ),
            1,
        ),
{
    reveal_with_fuel(run, 2);
}

proof fn lemma_write_from_writing(
    now: Machine,
    before: Machine,
    key: ConfigKey,
    desired: ConfigValueView,
    steps: nat,
)
    requires
        steps >= 2,
        staged(now, before, before.registry, before.subkeys.insert(key)),
        now.opened == held_for_write(key),
    ensures
        write_settled(
            before,
            key,
            desired,
            run(
                write_resumer(key, desired),
                ProgressView::Perform(
                    WriteStage::Writing,
                    RequestView::WriteValue { key, value: desired },
                ),
                now,
                steps,
            ),
            2,
        ),
{
    reveal_with_fuel(run, 2);
    let answer = now.respond(RequestView::WriteValue { key, value: desired });
    let (next, response) = answer->0;
    if response is Done {
        lemma_write_from_commit(next, before, key, desired, true, (steps - 1) as nat);
    }
}

proof fn lemma_write_from_reading(
    now: Machine,
    before: Machine,
    key: ConfigKey,
    desired: ConfigValueView,
    steps: nat,
)
    requires
        steps >= 3,
        staged(now, before, before.registry, before.subkeys.insert(key)),
        now.opened == held_for_write(key),
    ensures
        write_settled(
            before,
            key,
            desired,
            run(
                write_resumer(key, desired),
                ProgressView::Perform(WriteStage::ReadingCurrent, RequestView::ReadValue { key }),
                now,
                steps,
            ),
            3,
        ),
{
    reveal_with_fuel(run, 2);
    let answer = now.respond(RequestView::ReadValue { key });
    let (next, response) = answer->0;
    match write_resumer(key, desired)(WriteStage::ReadingCurrent, response) {
        ProgressView::Perform(WriteStage::Writing, _) => {
            lemma_write_from_writing(next, before, key, desired, (steps - 1) as nat);
        },
        ProgressView::Perform(_, _) => {
            lemma_write_from_commit(next, before, key, desired, false, (steps - 1) as nat);
        },
        ProgressView::Finished(_) => {},
    }
}

proof fn lemma_write_from_creating(
    now: Machine,
    before: Machine,
    key: ConfigKey,
    desired: ConfigValueView,
    steps: nat,
)
    requires
        steps >= 4,
        staged(now, before, before.registry, before.subkeys),
    ensures
        write_settled(
            before,
            key,
            desired,
            run(
                write_resumer(key, desired),
                ProgressView::Perform(
                    WriteStage::CreatingKey,
                    RequestView::CreateKey {
                        key,
                        access: KeyAccess::QueryAndSet,
                        transacted: true,
                    },
                ),
                now,
                steps,
            ),
            4,
        ),
{
    reveal_with_fuel(run, 2);
    let answer = now.respond(
        RequestView::CreateKey { key, access: KeyAccess::QueryAndSet, transacted: true },
    );
    let (next, response) = answer->0;
    if response is Done {
        lemma_write_from_reading(next, before, key, desired, (steps - 1) as nat);
    }
}

proof fn lemma_write_from_opening(
    now: Machine,
    before: Machine,
    key: ConfigKey,
    desired: ConfigValueView,
    steps: nat,
)
    requires
        steps >= 5,
        staged(now, before, before.registry, before.subkeys),
    ensures
        write_settled(
            before,
            key,
            desired,
            run(
                write_resumer(key, desired),
                ProgressView::Perform(
                    WriteStage::OpeningKey,
                    RequestView::OpenKey { key, access: KeyAccess::QueryAndSet, transacted: true },
                ),
                now,
                steps,
            ),
            5,
        ),
{
    reveal_with_fuel(run, 2);
    let answer = now.respond(
        RequestView::OpenKey { key, access: KeyAccess::QueryAndSet, transacted: true },
    );
    let (next, response) = answer->0;
    match response {
        ResponseView::Done => {
            assert(before.subkeys.insert(key) =~= before.subkeys);
            lemma_write_from_reading(next, before, key, desired, (steps - 1) as nat);
        },
        ResponseView::Failed(IoFailure::NotFound) => {
            lemma_write_from_creating(next, before, key, desired, (steps - 1) as nat);
        },
        _ => {},
    }
}

/// A conditional write is all or nothing, whatever fails on the way. It
/// always ends, after six requests at most, and leaves the processes
/// alone. If it ends with `true`, the registry holds the desired value
/// under the key and is otherwise as before. If it ends with `false`, the
/// registry held the desired value before and its values are unchanged.
/// Either way the subkey of the key exists afterwards. If it ends with an
/// error, that error is of a registry operation, the registry is unchanged,
/// and no subkey has come to be.
pub proof fn law_write_is_all_or_nothing(machine: Machine, key: ConfigKey, desired: ConfigValueView)
    ensures
        write_settled(machine, key, desired, set_or_update_run(machine, key, desired), 6),
        match set_or_update_run(machine, key, desired).result {
            Some(Ok(true)) => set_or_update_run(machine, key, desired).machine.registry
                == machine.registry.insert(key, desired) && set_or_update_run(
                machine,
                key,
                desired,
            ).machine.subkeys == machine.subkeys.insert(key),
            Some(Ok(false)) => set_or_update_run(machine, key, desired).machine.registry
                == machine.registry && machine.stored(key) == Some(desired) && set_or_update_run(
                machine,
                key,
                desired,
            ).machine.subkeys == machine.subkeys.insert(key),
            Some(Err(_)) => set_or_update_run(machine, key, desired).machine.registry
                == machine.registry && set_or_update_run(machine, key, desired).machine.subkeys
                == machine.subkeys,
            None => false,
        },
{
    reveal_with_fuel(run, 2);
    let answer = machine.respond(RequestView::BeginTransaction);
    let (next, response) = answer->0;
    if response is Done {
        lemma_write_from_opening(next, machine, key, desired, (step_bound() - 1) as nat);
    }
}

/// That the key does not exist is no error to a conditional write. On a
/// machine on which nothing fails and on which the subkey of the key does
/// not exist, the write creates the key inside its transaction, writes the
/// desired value once, and ends with `true`; afterwards the key exists and
/// holds the desired value.
pub proof fn law_missing_key_is_created(machine: Machine, key: ConfigKey, desired: ConfigValueView)
    requires
        machine.faultless(),
        machine.well_formed(),
        !machine.subkeys.contains(key),
    ensures
        set_or_update_run(machine, key, desired).result == Some(Ok::<bool, ErrorView>(true)),
        set_or_update_run(machine, key, desired).requests == requests_of_created_value(
            key,
            desired,
        ),
        set_or_update_run(machine, key, desired).machine.stored(key) == Some(desired),
        set_or_update_run(machine, key, desired).machine.subkeys.contains(key),
{
    law_write_happens_only_on_difference(machine, key, desired);
}

/// The requests of a conditional write from the read of the stored value
/// on, if nothing fails.
pub open spec fn requests_from_read(before: Machine, key: ConfigKey, desired: ConfigValueView) -> Seq<
    RequestView,
> {
    if before.stored(key) == Some(desired) {
        seq![RequestView::ReadValue { key }, RequestView::CommitTransaction]
    } else {
        seq![
            RequestView::ReadValue { key },
            RequestView::WriteValue { key, value: desired },
            RequestView::CommitTransaction,
        ]
    }
}

/// What holds of a conditional write that ran, in whole or from some stage
/// on, without a failure: it ended with whether the stored value differed,
/// and made exactly `requests`.
pub open spec fn write_exact(
    before: Machine,
    key: ConfigKey,
    desired: ConfigValueView,
    outcome: Run<bool>,
    requests: Seq<RequestView>,
) -> bool {
    &&& outcome.result == Some(Ok::<bool, ErrorView>(before.stored(key) != Some(desired)))
    &&& outcome.requests =~= requests
    &&& outcome.machine.faultless()
}

proof fn lemma_exact_from_commit(
    now: Machine,
    before: Machine,
    key: ConfigKey,
    desired: ConfigValueView,
    changed: bool,
    steps: nat,
)
    requires
        steps >= 1,
        now.faultless(),
        now.transaction is Some,
        changed == (before.stored(key) != Some(desired)),
    ensures
        write_exact(
            before,
            key,
            desired,
            run(
                write_resumer(key, desired),
                ProgressView::Perform(
                    WriteStage::Committing { changed },
                    RequestView::CommitTransaction,
                ),
                now,
                steps,
            ),
            seq![RequestView::CommitTransaction],
        ),
{
    reveal_with_fuel(run, 2);
}

proof fn lemma_exact_from_writing(
    now: Machine,
    before: Machine,
    key: ConfigKey,
    desired: ConfigValueView,
    steps: nat,
)
    requires
        steps >= 2,
        now.faultless(),
        now.transaction is Some,
        now.opened == held_for_write(key),
        before.stored(key) != Some(desired),
    ensures
        write_exact(
            before,
            key,
            desired,
            run(
                write_resumer(key, desired),
                ProgressView::Perform(
                    WriteStage::Writing,
                    RequestView::WriteValue { key, value: desired },
                ),
                now,
                steps,
            ),
            seq![RequestView::WriteValue { key, value: desired }, RequestView::CommitTransaction],
        ),
{
    reveal_with_fuel(run, 2);
    let answer = now.respond(RequestView::WriteValue { key, value: desired });
    let (next, response) = answer->0;
    lemma_exact_from_commit(next, before, key, desired, true, (steps - 1) as nat);
}

proof fn lemma_exact_from_reading(
    now: Machine,
    before: Machine,
    key: ConfigKey,
    desired: ConfigValueView,
    steps: nat,
)
    requires
        steps >= 3,
        now.faultless(),
        staged(now, before, before.registry, before.subkeys.insert(key)),
        now.opened == held_for_write(key),
        before.registry.contains_key(key) ==> key.holds(before.registry[key]),
    ensures
        write_exact(
            before,
            key,
            desired,
            run(
                write_resumer(key, desired),
                ProgressView::Perform(WriteStage::ReadingCurrent, RequestView::ReadValue { key }),
                now,
                steps,
            ),
            requests_from_read(before, key, desired),
        ),
{
    reveal_with_fuel(run, 2);
    let answer = now.respond(RequestView::ReadValue { key });
    let (next, response) = answer->0;
    if before.stored(key) == Some(desired) {
        lemma_exact_from_commit(next, before, key, desired, false, (steps - 1) as nat);
    } else {
        lemma_exact_from_writing(next, before, key, desired, (steps - 1) as nat);
    }
}

proof fn lemma_exact_from_creating(
    now: Machine,
    before: Machine,
    key: ConfigKey,
    desired: ConfigValueView,
    steps: nat,
)
    requires
        steps >= 4,
        now.faultless(),
        staged(now, before, before.registry, before.subkeys),
        before.registry.contains_key(key) ==> key.holds(before.registry[key]),
    ensures
        write_exact(
            before,
            key,
            desired,
            run(
                write_resumer(key, desired),
                ProgressView::Perform(
                    WriteStage::CreatingKey,
                    RequestView::CreateKey {
                        key,
                        access: KeyAccess::QueryAndSet,
                        transacted: true,
                    },
                ),
                now,
                steps,
            ),
            seq![
                RequestView::CreateKey { key, access: KeyAccess::QueryAndSet, transacted: true },
            ] + requests_from_read(before, key, desired),
        ),
{
    reveal_with_fuel(run, 2);
    let answer = now.respond(
        RequestView::CreateKey { key, access: KeyAccess::QueryAndSet, transacted: true },
    );
    let (next, response) = answer->0;
    lemma_exact_from_reading(next, before, key, desired, (steps - 1) as nat);
}

proof fn lemma_exact_from_opening(
    now: Machine,
    before: Machine,
    key: ConfigKey,
    desired: ConfigValueView,
    steps: nat,
)
    requires
        steps >= 5,
        now.faultless(),
        staged(now, before, before.registry, before.subkeys),
        before.registry.contains_key(key) ==> key.holds(before.registry[key]),
    ensures
        write_exact(
            before,
            key,
            desired,
            run(
                write_resumer(key, desired),
                ProgressView::Perform(
                    WriteStage::OpeningKey,
                    RequestView::OpenKey { key, access: KeyAccess::QueryAndSet, transacted: true },
                ),
                now,
                steps,
            ),
            if before.subkeys.contains(key) {
                seq![
                    RequestView::OpenKey { key, access: KeyAccess::QueryAndSet, transacted: true },
                ] + requests_from_read(before, key, desired)
            } else {
                seq![
                    RequestView::OpenKey { key, access: KeyAccess::QueryAndSet, transacted: true },
                    RequestView::CreateKey { key, access: KeyAccess::QueryAndSet, transacted: true },
                ] + requests_from_read(before, key, desired)
            },
        ),
{
    reveal_with_fuel(run, 2);
    let answer = now.respond(
        RequestView::OpenKey { key, access: KeyAccess::QueryAndSet, transacted: true },
    );
    let (next, response) = answer->0;
    if before.subkeys.contains(key) {
        assert(before.subkeys.insert(key) =~= before.subkeys);
        lemma_exact_from_reading(next, before, key, desired, (steps - 1) as nat);
    } else {
        lemma_exact_from_creating(next, before, key, desired, (steps - 1) as nat);
    }
}

/// On a machine on which nothing fails, a conditional write ends with
/// whether the stored value differed from the desired one, makes exactly one
/// write if it did and none if it did not, and leaves the desired value
/// stored. Where the key did not exist, it is created on the way.
pub proof fn law_write_happens_only_on_difference(
    machine: Machine,
    key: ConfigKey,
    desired: ConfigValueView,
)
    requires
        machine.faultless(),
        machine.well_formed(),
    ensures
        set_or_update_run(machine, key, desired).result == Some(
            Ok::<bool, ErrorView>(machine.stored(key) != Some(desired)),
        ),
        set_or_update_run(machine, key, desired).requests == requests_of_write(
            machine,
            key,
            desired,
        ),
        set_or_update_run(machine, key, desired).machine.registry == machine.registry.insert(
            key,
            desired,
        ),
        set_or_update_run(machine, key, desired).machine.subkeys == machine.subkeys.insert(key),
        set_or_update_run(machine, key, desired).machine.processes == machine.processes,
        set_or_update_run(machine, key, desired).machine.faultless(),
{
    reveal_with_fuel(run, 2);
    law_write_is_all_or_nothing(machine, key, desired);
    assert(machine.registry.contains_key(key) ==> key.holds(machine.registry[key])
        && machine.subkeys.contains(key));
    let answer = machine.respond(RequestView::BeginTransaction);
    let (next, response) = answer->0;
    lemma_exact_from_opening(next, machine, key, desired, (step_bound() - 1) as nat);
    if machine.stored(key) == Some(desired) {
        assert(machine.registry.insert(key, desired) =~= machine.registry);
    }
}

/// Registering twice in a row writes at most once. On a machine on which
/// nothing fails, the first registration ends with whether the registered
/// path differed from that of the running executable, and writes exactly
/// once if it did; the second ends with `false`, writes nothing, and leaves
/// the registry as the first left it.
pub proof fn law_register_is_idempotent(machine: Machine, path: Seq<char>)
    requires
        machine.faultless(),
        machine.well_formed(),
    ensures
        ({
            let key = ConfigKey::RunAtStartup;
            let desired = ConfigValueView::Path(path);
            let first = register_run(machine, Some(path));
            let second = register_run(first.machine, Some(path));
            &&& first.result == Some(Ok::<bool, ErrorView>(machine.stored(key) != Some(desired)))
            &&& first.requests == requests_of_write(machine, key, desired)
            &&& first.machine.registry == machine.registry.insert(key, desired)
            &&& second.result == Some(Ok::<bool, ErrorView>(false))
            &&& second.requests == requests_of_kept_value(key)
            &&& second.machine.registry == first.machine.registry
            &&& second.machine.subkeys == first.machine.subkeys
        }),
{
    let key = ConfigKey::RunAtStartup;
    let desired = ConfigValueView::Path(path);
    let first = register_run(machine, Some(path));
    assert(first == set_or_update_run(machine, key, desired)) by {
        lemma_register_is_a_conditional_write(machine, path);
    }
    law_write_happens_only_on_difference(machine, key, desired);
    assert(first.machine.well_formed()) by {
        assert forall|other: ConfigKey| #[trigger]
            first.machine.registry.contains_key(other) implies other.holds(
            first.machine.registry[other],
        ) && first.machine.subkeys.contains(other) by {
            if other != key {
                assert(machine.registry.contains_key(other));
            }
        }
    }
    assert(register_run(first.machine, Some(path)) == set_or_update_run(
        first.machine,
        key,
        desired,
    )) by {
        lemma_register_is_a_conditional_write(first.machine, path);
    }
    law_write_happens_only_on_difference(first.machine, key, desired);
    assert(first.machine.registry.insert(key, desired) =~= first.machine.registry);
    assert(first.machine.subkeys.insert(key) =~= first.machine.subkeys);
}

/// A registration of a running executable whose path is known is the
/// conditional write of that path under the key of the registration.
pub proof fn lemma_register_is_a_conditional_write(machine: Machine, path: Seq<char>)
    ensures
        register_run(machine, Some(path)) == set_or_update_run(
            machine,
            ConfigKey::RunAtStartup,
            ConfigValueView::Path(path),
        ),
{
    reveal_with_fuel(run, 8);
}

/// A registration that went stale is found out and healed. On a machine on
/// which nothing fails and whose registered path differs from the path of
/// the running executable, the query answers `false` and changes nothing;
/// a registration then ends with `true` and puts the path of the running
/// executable in place of the stale one, after which the query answers
/// `true`.
pub proof fn law_stale_registration_is_healed(machine: Machine, stale: Seq<char>, path: Seq<char>)
    requires
        machine.faultless(),
        machine.well_formed(),
        machine.stored(ConfigKey::RunAtStartup) == Some(ConfigValueView::Path(stale)),
        stale != path,
    ensures
        ({
            let key = ConfigKey::RunAtStartup;
            let query = will_run_at_startup_run(machine, Some(path));
            let registration = register_run(machine, Some(path));
            let query_again = will_run_at_startup_run(registration.machine, Some(path));
            &&& query.result == Some(Ok::<bool, ErrorView>(false))
            &&& query.machine.registry == machine.registry
            &&& registration.result == Some(Ok::<bool, ErrorView>(true))
            &&& registration.machine.stored(key) == Some(ConfigValueView::Path(path))
            &&& registration.machine.registry == machine.registry.insert(
                key,
                ConfigValueView::Path(path),
            )
            &&& query_again.result == Some(Ok::<bool, ErrorView>(true))
        }),
{
    reveal_with_fuel(run, 8);
}

/// The query for the registration reads and never writes: on a machine on
/// which nothing fails it makes the two requests of a plain read, leaves the
/// registry as it was, and answers whether the registered path is that of
/// the running executable.
pub proof fn law_query_reads_only(machine: Machine, path: Seq<char>)
    requires
        machine.faultless(),
        machine.well_formed(),
    ensures
        will_run_at_startup_run(machine, Some(path)).result == Some(
            Ok::<bool, ErrorView>(
                machine.stored(ConfigKey::RunAtStartup) == Some(ConfigValueView::Path(path)),
            ),
        ),
        will_run_at_startup_run(machine, Some(path)).requests == requests_of_query(
            machine,
            ConfigKey::RunAtStartup,
        ),
        will_run_at_startup_run(machine, Some(path)).machine.registry == machine.registry,
{
    reveal_with_fuel(run, 8);
    assert(machine.registry.contains_key(ConfigKey::RunAtStartup) ==> ConfigKey::RunAtStartup.holds(
        machine.registry[ConfigKey::RunAtStartup],
    ) && machine.subkeys.contains(ConfigKey::RunAtStartup));
}

/// That the key does not exist is no error to the query or to taking the
/// registration back. On a machine on which nothing fails and on which the
/// subkey of the registration does not exist, both end with `false` after
/// the one attempt to open the key, whatever the path of the running
/// executable is, and leave the registry as it was.
pub proof fn law_missing_key_reads_as_unregistered(
    machine: Machine,
    executable: Option<Seq<char>>,
)
    requires
        machine.faultless(),
        !machine.subkeys.contains(ConfigKey::RunAtStartup),
    ensures
        will_run_at_startup_run(machine, executable).result == Some(Ok::<bool, ErrorView>(false)),
        will_run_at_startup_run(machine, executable).requests == requests_of_refused_read(
            ConfigKey::RunAtStartup,
        ),
        will_run_at_startup_run(machine, executable).machine.registry == machine.registry,
        unregister_run(machine, executable).result == Some(Ok::<bool, ErrorView>(false)),
        unregister_run(machine, executable).requests == requests_of_refused_read(
            ConfigKey::RunAtStartup,
        ),
        unregister_run(machine, executable).machine.registry == machine.registry,
        unregister_run(machine, executable).machine.subkeys == machine.subkeys,
{
    reveal_with_fuel(run, 8);
}

/// Taking back a registration that is not there does nothing. On a machine
/// on which nothing fails and on which the running executable is not
/// registered, the operation ends with `false`, makes only the two requests
/// of a plain read, and leaves the registry as it was.
pub proof fn law_unregister_without_registration(machine: Machine, path: Seq<char>)
    requires
        machine.faultless(),
        machine.well_formed(),
        machine.stored(ConfigKey::RunAtStartup) != Some(ConfigValueView::Path(path)),
    ensures
        unregister_run(machine, Some(path)).result == Some(Ok::<bool, ErrorView>(false)),
        unregister_run(machine, Some(path)).requests == requests_of_query(
            machine,
            ConfigKey::RunAtStartup,
        ),
        unregister_run(machine, Some(path)).machine.registry == machine.registry,
{
    reveal_with_fuel(run, 8);
    assert(machine.registry.contains_key(ConfigKey::RunAtStartup) ==> ConfigKey::RunAtStartup.holds(
        machine.registry[ConfigKey::RunAtStartup],
    ) && machine.subkeys.contains(ConfigKey::RunAtStartup));
}

/// Where nothing at all is registered, taking the registration back does
/// nothing even if the path of the running executable cannot be had.
pub proof fn law_unregister_with_nothing_stored(machine: Machine, executable: Option<Seq<char>>)
    requires
        machine.faultless(),
        machine.stored(ConfigKey::RunAtStartup) is None,
    ensures
        unregister_run(machine, executable).result == Some(Ok::<bool, ErrorView>(false)),
        unregister_run(machine, executable).requests == requests_of_query(
            machine,
            ConfigKey::RunAtStartup,
        ),
        unregister_run(machine, executable).machine.registry == machine.registry,
{
    reveal_with_fuel(run, 8);
}

/// Taking back the registration of the running executable deletes it. On a
/// machine on which nothing fails and on which the running executable is
/// registered, the operation ends with `true`, deletes once, and leaves the
/// registry without the registration and otherwise as it was.
pub proof fn law_unregister_deletes_registration(machine: Machine, path: Seq<char>)
    requires
        machine.faultless(),
        machine.well_formed(),
        machine.stored(ConfigKey::RunAtStartup) == Some(ConfigValueView::Path(path)),
    ensures
        ({
            let key = ConfigKey::RunAtStartup;
            let removal = unregister_run(machine, Some(path));
            &&& removal.result == Some(Ok::<bool, ErrorView>(true))
            &&& removal.requests == requests_of_read(key) + seq![
                RequestView::OpenKey { key, access: KeyAccess::QueryAndSet, transacted: false },
                RequestView::DeleteValue { key },
            ]
            &&& removal.machine.registry == machine.registry.remove(key)
        }),
{
    reveal_with_fuel(run, 8);
}

/// The id that [`first_with_name`] finds among the records of a snapshot
/// belongs to an entry of that snapshot.
pub proof fn lemma_found_process_is_listed(
    entries: Seq<ProcessEntryView>,
    target: Seq<char>,
    pid: u32,
)
    requires
        first_with_name(records_of(entries), target) == Some(pid),
    ensures
        exists|i: int| 0 <= i < entries.len() && entries[i].pid == pid,
    decreases entries.len(),
{
    let records = records_of(entries);
    if records[0].name == target {
        assert(entries[0].pid == pid);
    } else {
        assert(records.drop_first() =~= records_of(entries.drop_first()));
        lemma_found_process_is_listed(entries.drop_first(), target, pid);
        let i = choose|i: int|
            0 <= i < entries.drop_first().len() && entries.drop_first()[i].pid == pid;
        assert(entries[i + 1].pid == pid);
    }
}

/// Showing extensions that are shown already does nothing. On a machine on
/// which nothing fails and whose flag says that extensions are shown, the
/// operation ends with `false`, writes nothing, leaves the registry as it
/// was, and does not touch the file manager: no snapshot is taken and no
/// process is terminated.
pub proof fn law_turn_off_when_visible(machine: Machine)
    requires
        machine.faultless(),
        machine.well_formed(),
        machine.stored(ConfigKey::HideFileExt) == Some(ConfigValueView::Flag(EXTENSIONS_VISIBLE)),
    ensures
        turn_off_run(machine).result == Some(Ok::<bool, ErrorView>(false)),
        turn_off_run(machine).requests == requests_of_kept_value(ConfigKey::HideFileExt),
        turn_off_run(machine).machine.registry == machine.registry,
        turn_off_run(machine).machine.processes == machine.processes,
{
    reveal_with_fuel(run, 10);
    assert(machine.registry.insert(
        ConfigKey::HideFileExt,
        ConfigValueView::Flag(EXTENSIONS_VISIBLE),
    ) =~= machine.registry);
}

/// Showing extensions that are hidden changes the flag and restarts the file
/// manager once. On a machine on which nothing fails and whose flag does not
/// say that extensions are shown, the flag is written once and committed,
/// and then exactly one snapshot is taken. If the snapshot lists the file
/// manager, its first process of that name is terminated and the operation
/// ends with `true`. If not, nothing is terminated and the operation ends
/// with the error of a restart that failed. Either way the flag stays
/// changed.
pub proof fn law_turn_off_when_hidden(machine: Machine)
    requires
        machine.faultless(),
        machine.well_formed(),
        machine.stored(ConfigKey::HideFileExt) != Some(ConfigValueView::Flag(EXTENSIONS_VISIBLE)),
    ensures
        ({
            let key = ConfigKey::HideFileExt;
            let visible = ConfigValueView::Flag(EXTENSIONS_VISIBLE);
            let change = turn_off_run(machine);
            &&& change.machine.registry == machine.registry.insert(key, visible)
            &&& match first_with_name(records_of(machine.processes), SHELL_IMAGE_NAME@) {
                Some(pid) => {
                    &&& change.result == Some(Ok::<bool, ErrorView>(true))
                    &&& change.requests == requests_of_write(machine, key, visible) + seq![
                        RequestView::ListProcesses,
                        RequestView::TerminateProcess { pid, exit_code: SHELL_EXIT_CODE },
                    ]
                },
                None => {
                    &&& change.result == Some(
                        Err::<bool, ErrorView>(ErrorView::UnableToRestartShell),
                    )
                    &&& change.requests == requests_of_write(machine, key, visible)
                        + seq![RequestView::ListProcesses]
                },
            }
        }),
{
    let key = ConfigKey::HideFileExt;
    let visible = ConfigValueView::Flag(EXTENSIONS_VISIBLE);
    let write = set_or_update_run(machine, key, visible);
    law_write_happens_only_on_difference(machine, key, visible);
    lemma_update_phase(
        WriteStage::BeginningTransaction,
        RequestView::BeginTransaction,
        machine,
        step_bound(),
    );
    let rest = (step_bound() - write.requests.len()) as nat;
    lemma_restart_exact(write.machine, rest);
    lemma_restart_ends(write.machine, rest);
}

/// The query for the flag answers what is stored: on a machine on which
/// nothing fails and which stores `flag`, it answers whether `flag` is not
/// zero, and changes nothing.
pub proof fn law_hidden_query_tells_the_flag(machine: Machine, flag: u32)
    requires
        machine.faultless(),
        machine.well_formed(),
        machine.stored(ConfigKey::HideFileExt) == Some(ConfigValueView::Flag(flag)),
    ensures
        hidden_run(machine).result == Some(Ok::<bool, ErrorView>(flag != 0)),
        hidden_run(machine).requests == requests_of_read(ConfigKey::HideFileExt),
        hidden_run(machine).machine.registry == machine.registry,
{
    reveal_with_fuel(run, 8);
}

/// A wait returns if and only if something changed since the last one
/// returned. On a machine on which nothing fails, the wait ends, without an
/// error, if a change is unseen, and then no change is unseen any more; it
/// does not end if none is.
pub proof fn law_wait_returns_on_change(machine: Machine)
    requires
        machine.faultless(),
        machine.subkeys.contains(watched_key()),
    ensures
        machine.unseen_changes > 0 ==> wait_run(machine).result == Some(Ok::<(), ErrorView>(()))
            && wait_run(machine).machine.unseen_changes == 0,
        machine.unseen_changes == 0 ==> wait_run(machine).result is None,
{
    reveal_with_fuel(run, 8);
}

/// Changes made from outside are not lost, though they may be reported as
/// one. On a machine on which nothing fails, after two writes of the flag
/// from outside, one round of the listener ends with a notice; it waits
/// once and reads once; the notice tells the flag of the later write; and
/// no change is left unseen.
pub proof fn law_changes_coalesce_and_are_not_lost(machine: Machine, earlier: u32, later: u32)
    requires
        machine.faultless(),
    ensures
        ({
            let key = ConfigKey::HideFileExt;
            let changed = machine.after_external_write(
                key,
                ConfigValueView::Flag(earlier),
            ).after_external_write(key, ConfigValueView::Flag(later));
            let round = listen_run(changed);
            &&& round.result == Some(Ok::<BackendMessage, ErrorView>(spec_message_for(later != 0)))
            &&& round.requests == seq![
                RequestView::OpenKey { key, access: KeyAccess::Read, transacted: false },
                RequestView::AwaitChange { key, watch_subtree: false, timeout_ms: NO_TIMEOUT },
                RequestView::OpenKey { key, access: KeyAccess::Read, transacted: false },
                RequestView::ReadValue { key },
            ]
            &&& round.machine.unseen_changes == 0
            &&& round.machine.registry == changed.registry
        }),
{
    reveal_with_fuel(run, 8);
}

/// A change that comes while the listener is between two waits is caught by
/// the next wait. On a machine on which nothing fails and on which a change
/// is unseen, one round of the listener ends with the notice of the flag
/// that is stored when the round reads it.
pub proof fn law_listener_reports_what_is_stored(machine: Machine, flag: u32)
    requires
        machine.faultless(),
        machine.well_formed(),
        machine.unseen_changes > 0,
        machine.stored(ConfigKey::HideFileExt) == Some(ConfigValueView::Flag(flag)),
    ensures
        listen_run(machine).result == Some(
            Ok::<BackendMessage, ErrorView>(spec_message_for(flag != 0)),
        ),
        listen_run(machine).machine.unseen_changes == 0,
{
    reveal_with_fuel(run, 8);
}

/// A restart always ends, whatever fails on the way, if it may make two
/// requests: without an error or with the error of a restart that failed,
/// and with the registry as it was.
pub proof fn lemma_restart_ends(machine: Machine, steps: nat)
    requires
        steps >= 2,
    ensures
        ({
            let restart = run(
                restart_resumer(),
                spec_restart_windows_explorer(),
                machine,
                steps,
            );
            &&& restart.result == Some(Ok::<(), ErrorView>(())) || restart.result == Some(
                Err::<(), ErrorView>(ErrorView::UnableToRestartShell),
            )
            &&& restart.machine.registry == machine.registry
            &&& restart.machine.subkeys == machine.subkeys
        }),
{
    reveal_with_fuel(run, 3);
}

/// What a restart does on a machine on which nothing fails, if it may make
/// two requests.
pub proof fn lemma_restart_exact(machine: Machine, steps: nat)
    requires
        steps >= 2,
        machine.faultless(),
    ensures
        ({
            let restart = run(
                restart_resumer(),
                spec_restart_windows_explorer(),
                machine,
                steps,
            );
            match first_with_name(records_of(machine.processes), SHELL_IMAGE_NAME@) {
                Some(pid) => restart.result == Some(Ok::<(), ErrorView>(())) && restart.requests
                    == seq![
                    RequestView::ListProcesses,
                    RequestView::TerminateProcess { pid, exit_code: SHELL_EXIT_CODE },
                ],
                None => restart.result == Some(
                    Err::<(), ErrorView>(ErrorView::UnableToRestartShell),
                ) && restart.requests == seq![RequestView::ListProcesses],
            }
        }),
{
    reveal_with_fuel(run, 3);
    match first_with_name(records_of(machine.processes), SHELL_IMAGE_NAME@) {
        Some(pid) => {
            lemma_found_process_is_listed(machine.processes, SHELL_IMAGE_NAME@, pid);
        },
        None => {},
    }
}

/// A restart of the file manager terminates the first process of a snapshot
/// that bears its name, and nothing else. On a machine on which nothing
/// fails, it ends without an error if the snapshot lists such a process, and
/// with the error of a restart that failed if not.
pub proof fn law_restart_terminates_the_shell(machine: Machine)
    requires
        machine.faultless(),
    ensures
        match first_with_name(records_of(machine.processes), SHELL_IMAGE_NAME@) {
            Some(pid) => restart_run(machine).result == Some(Ok::<(), ErrorView>(()))
                && restart_run(machine).requests == seq![
                RequestView::ListProcesses,
                RequestView::TerminateProcess { pid, exit_code: SHELL_EXIT_CODE },
            ],
            None => restart_run(machine).result == Some(
                Err::<(), ErrorView>(ErrorView::UnableToRestartShell),
            ) && restart_run(machine).requests == seq![RequestView::ListProcesses],
        },
        restart_run(machine).machine.registry == machine.registry,
{
    lemma_restart_exact(machine, step_bound());
    lemma_restart_ends(machine, step_bound());
}

/// The end of a restart, as the end of the operation that shows extensions:
/// a restart that went well ends that operation with `true`.
pub open spec fn change_of_restart(result: Option<Result<(), ErrorView>>) -> Option<
    Result<bool, ErrorView>,
> {
    match result {
        Some(Ok(_)) => Some(Ok(true)),
        Some(Err(error)) => Some(Err(error)),
        None => None,
    }
}

/// A restart does not look at the key or the transaction that the host
/// holds: from two machines that differ in nothing else it runs alike.
proof fn lemma_restart_ignores_handles(
    stage: RestartStage,
    request: RequestView,
    one: Machine,
    other: Machine,
    steps: nat,
)
    requires
        one.released() == other.released(),
        request is ListProcesses || request is TerminateProcess,
    ensures
        run(restart_resumer(), ProgressView::Perform(stage, request), one, steps) == run(
            restart_resumer(),
            ProgressView::Perform(stage, request),
            other,
            steps,
        ),
    decreases steps,
{
    reveal_with_fuel(run, 2);
    if steps > 0 {
        let (next_one, response) = one.respond(request)->0;
        let (next_other, response_other) = other.respond(request)->0;
        assert(one.faults == other.faults);
        assert(one.processes == other.processes);
        assert(response == response_other);
        assert(next_one.released() == next_other.released());
        match restart_resumer()(stage, response) {
            ProgressView::Perform(next_stage, next_request) => {
                lemma_restart_ignores_handles(
                    next_stage,
                    next_request,
                    next_one,
                    next_other,
                    (steps - 1) as nat,
                );
            },
            ProgressView::Finished(_) => {},
        }
    }
}

/// The second part of the operation that shows extensions is a restart.
proof fn lemma_restart_phase(
    stage: RestartStage,
    request: RequestView,
    machine: Machine,
    steps: nat,
)
    ensures
        ({
            let change = run(
                hiding_resumer(),
                ProgressView::Perform(HidingStage::Restarting(stage), request),
                machine,
                steps,
            );
            let restart = run(
                restart_resumer(),
                ProgressView::Perform(stage, request),
                machine,
                steps,
            );
            &&& change.machine == restart.machine
            &&& change.requests == restart.requests
            &&& change.result == change_of_restart(restart.result)
        }),
    decreases steps,
{
    reveal_with_fuel(run, 2);
    if steps > 0 {
        match machine.respond(request) {
            Some((next, response)) => {
                match restart_resumer()(stage, response) {
                    ProgressView::Perform(next_stage, next_request) => {
                        lemma_restart_phase(next_stage, next_request, next, (steps - 1) as nat);
                    },
                    ProgressView::Finished(_) => {},
                }
            },
            None => {},
        }
    }
}

/// The first part of the operation that shows extensions is a conditional
/// write of the flag for shown extensions. Where the write ends with
/// `false` or with an error, so does the operation, at the same point.
/// Where the write ends with `true`, the operation goes on as a restart
/// does from there.
proof fn lemma_update_phase(stage: WriteStage, request: RequestView, machine: Machine, steps: nat)
    ensures
        ({
            let key = ConfigKey::HideFileExt;
            let visible = ConfigValueView::Flag(EXTENSIONS_VISIBLE);
            let change = run(
                hiding_resumer(),
                ProgressView::Perform(HidingStage::Updating(stage), request),
                machine,
                steps,
            );
            let write = run(
                write_resumer(key, visible),
                ProgressView::Perform(stage, request),
                machine,
                steps,
            );
            match write.result {
                Some(Ok(true)) => {
                    let restart = run(
                        restart_resumer(),
                        spec_restart_windows_explorer(),
                        write.machine,
                        (steps - write.requests.len()) as nat,
                    );
                    &&& write.requests.len() <= steps
                    &&& change.machine == restart.machine
                    &&& change.requests == write.requests + restart.requests
                    &&& change.result == change_of_restart(restart.result)
                },
                Some(_) => change == write,
                None => true,
            }
        }),
    decreases steps,
{
    reveal_with_fuel(run, 2);
    let key = ConfigKey::HideFileExt;
    let visible = ConfigValueView::Flag(EXTENSIONS_VISIBLE);
    if steps > 0 {
        match machine.respond(request) {
            Some((next, response)) => {
                let rest = (steps - 1) as nat;
                match write_resumer(key, visible)(stage, response) {
                    ProgressView::Perform(next_stage, next_request) => {
                        lemma_update_phase(next_stage, next_request, next, rest);
                        let write_rest = run(
                            write_resumer(key, visible),
                            ProgressView::Perform(next_stage, next_request),
                            next,
                            rest,
                        );
                        if write_rest.result == Some(Ok::<bool, ErrorView>(true)) {
                            let restart = run(
                                restart_resumer(),
                                spec_restart_windows_explorer(),
                                write_rest.machine,
                                (rest - write_rest.requests.len()) as nat,
                            );
                            assert(seq![request] + (write_rest.requests + restart.requests) =~= (
                            seq![request] + write_rest.requests) + restart.requests);
                        }
                    },
                    ProgressView::Finished(Ok(true)) => {
                        lemma_restart_phase(
                            RestartStage::ListingProcesses,
                            RequestView::ListProcesses,
                            next,
                            rest,
                        );
                        lemma_restart_ignores_handles(
                            RestartStage::ListingProcesses,
                            RequestView::ListProcesses,
                            next,
                            next.released(),
                            rest,
                        );
                        let restart = run(
                            restart_resumer(),
                            spec_restart_windows_explorer(),
                            next.released(),
                            rest,
                        );
                        assert(seq![request] + restart.requests =~= (seq![request]
                            + Seq::<RequestView>::empty()) + restart.requests);
                    },
                    ProgressView::Finished(_) => {},
                }
            },
            None => {},
        }
    }
}

/// Queries and restarts leave the registry alone and always end, whatever
/// fails on the way.
pub proof fn law_queries_change_nothing(machine: Machine, executable: Option<Seq<char>>)
    ensures
        will_run_at_startup_run(machine, executable).result is Some,
        will_run_at_startup_run(machine, executable).machine.registry == machine.registry,
        will_run_at_startup_run(machine, executable).machine.subkeys == machine.subkeys,
        hidden_run(machine).result is Some,
        hidden_run(machine).machine.registry == machine.registry,
        hidden_run(machine).machine.subkeys == machine.subkeys,
        restart_run(machine).result is Some,
        restart_run(machine).machine.registry == machine.registry,
        restart_run(machine).machine.subkeys == machine.subkeys,
{
    reveal_with_fuel(run, 8);
}

/// Taking back a registration is all or nothing, whatever fails on the way.
/// It always ends. If it ends with `true`, the registration is gone and the
/// registry is otherwise as before. If it ends with `false` or with an
/// error, the registry is unchanged.
pub proof fn law_unregister_is_all_or_nothing(machine: Machine, executable: Option<Seq<char>>)
    ensures
        match unregister_run(machine, executable).result {
            Some(Ok(true)) => unregister_run(machine, executable).machine.registry
                == machine.registry.remove(ConfigKey::RunAtStartup) && unregister_run(
                machine,
                executable,
            ).machine.subkeys == machine.subkeys,
            Some(Ok(false)) => unregister_run(machine, executable).machine.registry
                == machine.registry,
            Some(Err(_)) => unregister_run(machine, executable).machine.registry
                == machine.registry,
            None => false,
        },
{
    reveal_with_fuel(run, 8);
}

/// A change of the flag is never rolled back, whatever fails on the way.
/// The operation always ends. If it ends with `false`, or with the error of
/// a registry operation, the registry is unchanged and the file manager was
/// not touched. If it ends with `true`, or with the error of a restart that
/// failed, the registry holds the flag for shown extensions and is otherwise
/// as before.
pub proof fn law_turn_off_never_rolls_back(machine: Machine)
    ensures
        match turn_off_run(machine).result {
            Some(Ok(true)) | Some(Err(ErrorView::UnableToRestartShell)) => turn_off_run(
                machine,
            ).machine.registry == machine.registry.insert(
                ConfigKey::HideFileExt,
                ConfigValueView::Flag(EXTENSIONS_VISIBLE),
            ),
            Some(Ok(false)) | Some(Err(_)) => turn_off_run(machine).machine.registry
                == machine.registry && turn_off_run(machine).machine.processes
                == machine.processes,
            None => false,
        },
{
    let key = ConfigKey::HideFileExt;
    let visible = ConfigValueView::Flag(EXTENSIONS_VISIBLE);
    let write = set_or_update_run(machine, key, visible);
    law_write_is_all_or_nothing(machine, key, visible);
    lemma_update_phase(
        WriteStage::BeginningTransaction,
        RequestView::BeginTransaction,
        machine,
        step_bound(),
    );
    if write.result == Some(Ok::<bool, ErrorView>(true)) {
        lemma_restart_ends(write.machine, (step_bound() - write.requests.len()) as nat);
    }
}

/// Nothing but the wait for a change can keep the listener from ending,
/// whatever fails on the way: a round that does not end has made exactly two
/// requests, the second of which is that wait.
pub proof fn law_only_the_wait_blocks(machine: Machine)
    ensures
        listen_run(machine).result is None ==> listen_run(machine).requests.len() == 2
            && listen_run(machine).requests[1] is AwaitChange,
        wait_run(machine).result is None ==> wait_run(machine).requests.len() == 2
            && wait_run(machine).requests[1] is AwaitChange,
{
    reveal_with_fuel(run, 8);
}

} // verus!
