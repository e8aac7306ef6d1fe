//! A machine in the abstract: what its registry and its process table hold,
//! and how it answers each request. An operation is run against it by
//! handing each of its requests to the machine and resuming it with the
//! answer, until it ends.
//!
//! Nothing here is executable. The model gives the operations a meaning that
//! can be stated and proved: see [`crate::laws`].

use crate::config::{ConfigKey, ConfigValueView};
use crate::err::{ErrorView, IoFailure};
use crate::host::{KeyAccess, ProgressView, RequestView, ResponseView};
use crate::process::ProcessEntryView;
use vstd::prelude::*;

verus! {

/// A registry key that the host holds open.
pub struct OpenedKey {
    pub key: ConfigKey,
    pub access: KeyAccess,
    pub transacted: bool,
}

/// What a registry holds of the settings: which of their subkeys exist, and
/// the values stored under them.
pub struct Hive {
    /// The settings whose subkey exists.
    pub subkeys: Set<ConfigKey>,
    /// The values of the settings that have one.
    pub values: Map<ConfigKey, ConfigValueView>,
}

/// The state of a machine.
pub struct Machine {
    /// The committed values of the registry.
    pub registry: Map<ConfigKey, ConfigValueView>,
    /// The settings whose subkey exists in the registry.
    pub subkeys: Set<ConfigKey>,
    /// The registry as the open transaction sees it, if one is open.
    pub transaction: Option<Hive>,
    /// The key that the host holds open, if any.
    pub opened: Option<OpenedKey>,
    /// The running processes, in the order in which a snapshot lists them.
    pub processes: Seq<ProcessEntryView>,
    /// How many changes the values under the watched key have seen since a
    /// wait for a change last returned.
    pub unseen_changes: nat,
    /// The failures that lie ahead: the n-th request from now fails with the
    /// n-th entry, where that entry names a failure. Requests beyond the end
    /// of the sequence do not fail in this way.
    pub faults: Seq<Option<IoFailure>>,
}

/// The value that `values` holds for `key`, if it holds one.
pub open spec fn lookup(values: Map<ConfigKey, ConfigValueView>, key: ConfigKey) -> Option<
    ConfigValueView,
> {
    if values.contains_key(key) {
        Some(values[key])
    } else {
        None
    }
}

/// The key whose values a wait for a change watches.
pub open spec fn watched_key() -> ConfigKey {
    ConfigKey::HideFileExt
}

impl Machine {
    /// No failure is planned: the machine answers every request as
    /// [`Machine::obey`] says.
    pub open spec fn faultless(self) -> bool {
        self.faults.len() == 0
    }

    /// Every stored value has the type that its setting is stored with, and
    /// lies under a subkey that exists.
    pub open spec fn well_formed(self) -> bool {
        forall|key: ConfigKey| #[trigger]
            self.registry.contains_key(key) ==> key.holds(self.registry[key])
                && self.subkeys.contains(key)
    }

    /// The stored value of `key`, if there is one.
    pub open spec fn stored(self, key: ConfigKey) -> Option<ConfigValueView> {
        lookup(self.registry, key)
    }

    /// The registry as it is committed.
    pub open spec fn committed(self) -> Hive {
        Hive { subkeys: self.subkeys, values: self.registry }
    }

    /// The machine after someone stored `value` under `key`, outside the
    /// library.
    pub open spec fn after_external_write(self, key: ConfigKey, value: ConfigValueView) -> Machine {
        Machine {
            registry: self.registry.insert(key, value),
            subkeys: self.subkeys.insert(key),
            unseen_changes: if key == watched_key() {
                self.unseen_changes + 1
            } else {
                self.unseen_changes
            },
            ..self
        }
    }

    /// The machine once the host has let go of the key and the transaction
    /// that it held. A transaction that was not committed leaves no trace.
    pub open spec fn released(self) -> Machine {
        Machine { transaction: None, opened: None, ..self }
    }

    /// Whether a request that is `transacted` acts inside the transaction.
    pub open spec fn inside_transaction(self, transacted: bool) -> bool {
        transacted && self.transaction is Some
    }

    /// The registry as a request sees it: that of the transaction if the
    /// request acts inside it, the committed one if not.
    pub open spec fn visible(self, transacted: bool) -> Hive {
        if self.inside_transaction(transacted) {
            self.transaction->0
        } else {
            self.committed()
        }
    }

    /// The machine after `hive` took the place of what a request sees:
    /// inside the transaction, or in the registry itself. `touched` is the
    /// key whose value the request was about.
    pub open spec fn with_visible(self, transacted: bool, hive: Hive, touched: ConfigKey) -> Machine {
        if self.inside_transaction(transacted) {
            Machine { transaction: Some(hive), ..self }
        } else {
            self.with_committed(hive, touched)
        }
    }

    /// The machine after `hive` became the committed registry. A change of
    /// the value of the watched key counts as one change more to be seen.
    pub open spec fn with_committed(self, hive: Hive, touched: ConfigKey) -> Machine {
        Machine {
            registry: hive.values,
            subkeys: hive.subkeys,
            unseen_changes: if touched == watched_key() && lookup(hive.values, touched)
                != self.stored(touched) {
                self.unseen_changes + 1
            } else {
                self.unseen_changes
            },
            ..self
        }
    }

    /// How the machine answers `request` when no failure is due, and what it
    /// is afterwards. `None` stands for a request that never returns.
    pub open spec fn obey(self, request: RequestView) -> Option<(Machine, ResponseView)> {
        let refused = Some((self, ResponseView::Failed(IoFailure::InvalidData)));
        match request {
            RequestView::BeginTransaction => Some(
                (Machine { transaction: Some(self.committed()), ..self }, ResponseView::Done),
            ),
            RequestView::OpenKey { key, access, transacted } => if transacted
                && self.transaction is None {
                refused
            } else if !self.visible(transacted).subkeys.contains(key) {
                Some((self, ResponseView::Failed(IoFailure::NotFound)))
            } else {
                Some(
                    (
                        Machine { opened: Some(OpenedKey { key, access, transacted }), ..self },
                        ResponseView::Done,
                    ),
                )
            },
            RequestView::CreateKey { key, access, transacted } => if transacted
                && self.transaction is None {
                refused
            } else {
                let hive = self.visible(transacted);
                let created = Hive { subkeys: hive.subkeys.insert(key), ..hive };
                let machine = self.with_visible(transacted, created, key);
                Some(
                    (
                        Machine { opened: Some(OpenedKey { key, access, transacted }), ..machine },
                        ResponseView::Done,
                    ),
                )
            },
            RequestView::ReadValue { key } => match self.opened {
                Some(opened) if opened.key == key => {
                    let hive = self.visible(opened.transacted);
                    if hive.values.contains_key(key) {
                        Some((self, ResponseView::Value(hive.values[key])))
                    } else {
                        Some((self, ResponseView::Failed(IoFailure::NotFound)))
                    }
                },
                _ => refused,
            },
            RequestView::WriteValue { key, value } => match self.opened {
                Some(opened) if opened.key == key && opened.access == KeyAccess::QueryAndSet => {
                    let hive = self.visible(opened.transacted);
                    let written = Hive { values: hive.values.insert(key, value), ..hive };
                    Some((self.with_visible(opened.transacted, written, key), ResponseView::Done))
                },
                _ => refused,
            },
            RequestView::DeleteValue { key } => match self.opened {
                Some(opened) if opened.key == key && opened.access == KeyAccess::QueryAndSet => {
                    let hive = self.visible(opened.transacted);
                    if hive.values.contains_key(key) {
                        let deleted = Hive { values: hive.values.remove(key), ..hive };
                        Some(
                            (self.with_visible(opened.transacted, deleted, key), ResponseView::Done),
                        )
                    } else {
                        Some((self, ResponseView::Failed(IoFailure::NotFound)))
                    }
                },
                _ => refused,
            },
            RequestView::CommitTransaction => match self.transaction {
                Some(hive) => Some(
                    (
                        Machine { transaction: None, ..self.with_committed(hive, watched_key()) },
                        ResponseView::Done,
                    ),
                ),
                None => refused,
            },
            RequestView::ListProcesses => Some((self, ResponseView::Processes(self.processes))),
            RequestView::TerminateProcess { pid, exit_code } => if exists|i: int|
                0 <= i < self.processes.len() && self.processes[i].pid == pid {
                Some(
                    (
                        Machine {
                            processes: self.processes.filter(|entry: ProcessEntryView| entry.pid != pid),
                            ..self
                        },
                        ResponseView::Done,
                    ),
                )
            } else {
                refused
            },
            RequestView::AwaitChange { key, watch_subtree, timeout_ms } => match self.opened {
                Some(opened) if opened.key == key => if self.unseen_changes > 0 {
                    Some((Machine { unseen_changes: 0, ..self }, ResponseView::Done))
                } else if timeout_ms == u32::MAX {
                    None
                } else {
                    refused
                },
                _ => refused,
            },
        }
    }

    /// How the machine answers `request`, and what it is afterwards. Where a
    /// failure is due, the request fails with it and changes nothing.
    pub open spec fn respond(self, request: RequestView) -> Option<(Machine, ResponseView)> {
        if self.faults.len() == 0 {
            self.obey(request)
        } else {
            let rest = Machine { faults: self.faults.drop_first(), ..self };
            match self.faults[0] {
                Some(cause) => Some((rest, ResponseView::Failed(cause))),
                None => rest.obey(request),
            }
        }
    }
}

/// What came of running an operation against a machine.
pub struct Run<T> {
    /// The machine afterwards.
    pub machine: Machine,
    /// How the operation ended; `None` if it did not end.
    pub result: Option<Result<T, ErrorView>>,
    /// The requests that the operation made, in order.
    pub requests: Seq<RequestView>,
}

/// Runs an operation that stands at `progress` against `machine`: each
/// request goes to the machine, and `resume` says how the operation goes on
/// from the answer. `steps` bounds the number of requests.
pub open spec fn run<S, T>(
    resume: spec_fn(S, ResponseView) -> ProgressView<S, T>,
    progress: ProgressView<S, T>,
    machine: Machine,
    steps: nat,
) -> Run<T>
    decreases steps,
{
    match progress {
        ProgressView::Finished(result) => Run {
            machine: machine.released(),
            result: Some(result),
            requests: Seq::empty(),
        },
        ProgressView::Perform(stage, request) => if steps == 0 {
            Run { machine: machine.released(), result: None, requests: Seq::empty() }
        } else {
            match machine.respond(request) {
                None => Run { machine: machine.released(), result: None, requests: seq![request] },
                Some((next, response)) => {
                    let rest = run(resume, resume(stage, response), next, (steps - 1) as nat);
                    Run {
                        machine: rest.machine,
                        result: rest.result,
                        requests: seq![request] + rest.requests,
                    }
                },
            }
        },
    }
}

/// No operation of the library makes more requests than this.
pub open spec fn step_bound() -> nat {
    9
}

} // verus!
