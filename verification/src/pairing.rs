//! The pairing authority: what is done with a connection, decided step by step.
//!
//! The program that owns the radio performs each [`Action`] and reports back
//! how it ended; [`on_connect`] and [`advance`] decide what comes next.
//! [`handle_connection`] plays a whole connection event against an image of the
//! store and a script of transport outcomes.

use vstd::prelude::*;
use crate::config::{Config, Nvs, NvsView, StorageFault};
use crate::identity::DeviceIdentity;

verus! {

/// Connection parameters asked of the transport: the interval bounds, the
/// peripheral latency and the supervision timeout, in the transport's units.
#[derive(Clone, Copy, Debug, PartialEq, Eq, Structural)]
pub struct ConnParams {
    pub min_interval: u16,
    pub max_interval: u16,
    pub latency: u16,
    pub timeout: u16,
}

/// The profile that the device prefers.
pub open spec fn spec_preferred_conn_params() -> ConnParams {
    ConnParams { min_interval: 24, max_interval: 48, latency: 0, timeout: 60 }
}

/// The profile that the device prefers.
#[verifier::when_used_as_spec(spec_preferred_conn_params)]
pub fn preferred_conn_params() -> (params: ConnParams)
    ensures
        params == spec_preferred_conn_params(),
{
    ConnParams { min_interval: 24, max_interval: 48, latency: 0, timeout: 60 }
}

/// What the handler asks for next.
#[derive(Clone, Copy, Debug, PartialEq, Eq)]
pub enum Action {
    /// Terminate the connection.
    Disconnect,
    /// Write this identity to the store as the owner, unless the store, read
    /// again under the same lock, has an owner by now.
    CommitOwner(DeviceIdentity),
    /// Ask the transport for these connection parameters.
    UpdateConnParams(ConnParams),
    /// Nothing more: the event is handled.
    Finish,
}

/// What the handler has to tell about a step.
#[derive(Clone, Copy, Debug, PartialEq, Eq)]
pub enum Report {
    /// The owner could not be read; the connection is left alone.
    ReadFailed(StorageFault),
    /// The peer is not the owner and is being disconnected.
    Unrecognized,
    /// The transport failed to disconnect the peer.
    DisconnectFailed,
    /// The peer was written to the store as the owner.
    Paired,
    /// The peer could not be written as the owner; it is admitted all the same.
    CommitFailed,
    /// The transport failed to apply the connection parameters.
    ConnParamsFailed,
    /// A peer went away, for the reason the transport gave.
    Disconnected(i32),
}

/// One decision: the action to perform next and what there is to report.
#[derive(Clone, Copy, Debug, PartialEq, Eq)]
pub struct Decision {
    pub action: Action,
    pub report: Option<Report>,
}

/// The decision on a new connection from `peer`, given what reading the owner
/// gave. The owner is recognised by its address bytes, since a stored identity
/// carries no kind of its own.
pub open spec fn spec_on_connect(
    peer: DeviceIdentity,
    stored: Result<Option<DeviceIdentity>, StorageFault>,
) -> Decision {
    match stored {
        Err(fault) => Decision { action: Action::Finish, report: Some(Report::ReadFailed(fault)) },
        Ok(None) => Decision { action: Action::CommitOwner(peer), report: None },
        Ok(Some(owner)) => if owner.same_device(peer) {
            Decision { action: Action::UpdateConnParams(preferred_conn_params()), report: None }
        } else {
            Decision { action: Action::Disconnect, report: Some(Report::Unrecognized) }
        },
    }
}

/// How performing an action ended.
#[derive(Clone, Copy, Debug, PartialEq, Eq)]
pub enum Outcome {
    /// It was done.
    Succeeded,
    /// It was tried and failed.
    Failed,
    /// Of a commit only: when the store was read again, this owner was on record
    /// already; nothing was written.
    OwnerFound(DeviceIdentity),
    /// Of a commit only: the store could not be read again; nothing was written.
    Unreadable(StorageFault),
}

/// How a commit ends that finds `found` when it reads the store again, if its
/// write succeeds.
pub open spec fn commit_outcome(found: Result<Option<DeviceIdentity>, StorageFault>) -> Outcome {
    match found {
        Ok(None) => Outcome::Succeeded,
        Ok(Some(owner)) => Outcome::OwnerFound(owner),
        Err(fault) => Outcome::Unreadable(fault),
    }
}

/// The decision that follows `pending`, given how it ended. A commit that found
/// an owner, or could not read the store again, is decided as a new connection
/// that read the same would be.
pub open spec fn spec_advance(pending: Action, outcome: Outcome) -> Decision {
    match pending {
        Action::Disconnect => Decision {
            action: Action::Finish,
            report: if outcome is Succeeded { None } else { Some(Report::DisconnectFailed) },
        },
        Action::CommitOwner(peer) => match outcome {
            Outcome::Succeeded => Decision {
                action: Action::UpdateConnParams(preferred_conn_params()),
                report: Some(Report::Paired),
            },
            Outcome::Failed => Decision {
                action: Action::UpdateConnParams(preferred_conn_params()),
                report: Some(Report::CommitFailed),
            },
            Outcome::OwnerFound(owner) => spec_on_connect(peer, Ok(Some(owner))),
            Outcome::Unreadable(fault) => spec_on_connect(peer, Err(fault)),
        },
        Action::UpdateConnParams(_) => Decision {
            action: Action::Finish,
            report: if outcome is Succeeded { None } else { Some(Report::ConnParamsFailed) },
        },
        Action::Finish => Decision { action: Action::Finish, report: None },
    }
}

/// Decides what to do with a new connection from `peer`. `stored` is the outcome
/// of reading the owner from the store.
///
/// * The read failed: nothing is done, and the fault is reported.
/// * No owner yet: `peer` is to be written as the owner.
/// * `peer` is the owner: the preferred connection parameters are asked for.
/// * Anyone else: the connection is to be terminated.
#[verifier::when_used_as_spec(spec_on_connect)]
pub fn on_connect(peer: DeviceIdentity, stored: Result<Option<DeviceIdentity>, StorageFault>) -> (decision:
    Decision)
    ensures
        decision == spec_on_connect(peer, stored),
{
    match stored {
        Err(fault) => Decision { action: Action::Finish, report: Some(Report::ReadFailed(fault)) },
        Ok(None) => Decision { action: Action::CommitOwner(peer), report: None },
        Ok(Some(owner)) => {
            if owner.same_device(peer) {
                Decision { action: Action::UpdateConnParams(preferred_conn_params()), report: None }
            } else {
                Decision { action: Action::Disconnect, report: Some(Report::Unrecognized) }
            }
        },
    }
}

/// Decides what follows the action `pending`, once it was performed and ended
/// as `outcome` says.
///
/// * After a disconnect, whether or not it succeeded, the event is handled:
///   nothing follows the termination of a peer that is not the owner.
/// * After a commit that wrote the peer, and after one whose write failed, the
///   preferred connection parameters are asked for.
/// * After a commit that found an owner on record, the peer is treated as on a
///   new connection: admitted if it is that owner, disconnected if not. After
///   one that could not read the store again, the event is handled.
/// * After the parameters were asked for, the event is handled.
/// Every failure is reported and none is tried again. For a disconnect and for
/// the parameters every outcome but `Succeeded` counts as a failure.
#[verifier::when_used_as_spec(spec_advance)]
pub fn advance(pending: Action, outcome: Outcome) -> (decision: Decision)
    ensures
        decision == spec_advance(pending, outcome),
{
    match pending {
        Action::Disconnect => {
            let report = if matches!(outcome, Outcome::Succeeded) {
                None
            } else {
                Some(Report::DisconnectFailed)
            };
            Decision { action: Action::Finish, report }
        },
        Action::CommitOwner(peer) => match outcome {
            Outcome::Succeeded => Decision {
                action: Action::UpdateConnParams(preferred_conn_params()),
                report: Some(Report::Paired),
            },
            Outcome::Failed => Decision {
                action: Action::UpdateConnParams(preferred_conn_params()),
                report: Some(Report::CommitFailed),
            },
            Outcome::OwnerFound(owner) => on_connect(peer, Ok(Some(owner))),
            Outcome::Unreadable(fault) => on_connect(peer, Err(fault)),
        },
        Action::UpdateConnParams(_) => {
            let report = if matches!(outcome, Outcome::Succeeded) {
                None
            } else {
                Some(Report::ConnParamsFailed)
            };
            Decision { action: Action::Finish, report }
        },
        Action::Finish => Decision { action: Action::Finish, report: None },
    }
}

/// Commits `peer` as the owner in one step: reads the store again and writes
/// only if there is still no owner on record. Whoever holds the store's lock
/// holds it across the whole step, so of two peers that both found the store
/// empty only the first to commit is written.
pub fn commit_owner(nvs: &mut Nvs, peer: DeviceIdentity) -> (outcome: Outcome)
    ensures
        final(nvs)@ == old(nvs)@.with_owner_if_absent(peer),
        outcome == commit_outcome(old(nvs)@.owner_identity()),
{
    match Config::read_paired_id_address(nvs) {
        Ok(None) => {
            Config::write_paired_id_address(nvs, peer);
            Outcome::Succeeded
        },
        Ok(Some(owner)) => Outcome::OwnerFound(owner),
        Err(fault) => Outcome::Unreadable(fault),
    }
}

/// What a disconnection calls for: nothing but a report of it.
pub fn on_disconnect(reason: i32) -> (decision: Decision)
    ensures
        decision.action == Action::Finish,
        decision.report == Some(Report::Disconnected(reason)),
{
    Decision { action: Action::Finish, report: Some(Report::Disconnected(reason)) }
}

/// Which of the fallible operations succeed while one connection is handled.
#[derive(Clone, Copy, Debug, PartialEq, Eq, Structural)]
pub struct Script {
    /// Reading the owner from storage.
    pub read_succeeds: bool,
    /// Terminating the connection.
    pub disconnect_succeeds: bool,
    /// Writing the owner to storage.
    pub commit_succeeds: bool,
    /// Applying the connection parameters.
    pub conn_params_succeed: bool,
}

impl Script {
    /// What reading the owner gives under this script: what the store holds, or
    /// `ReadFailed` where the read itself fails.
    pub open spec fn read_of(self, store: NvsView) -> Result<Option<DeviceIdentity>, StorageFault> {
        if self.read_succeeds {
            store.owner_identity()
        } else {
            Err(StorageFault::ReadFailed)
        }
    }

    /// How `action` ends under this script when it is performed at `store`.
    pub open spec fn outcome_of(self, action: Action, store: NvsView) -> Outcome {
        match action {
            Action::Disconnect => if self.disconnect_succeeds {
                Outcome::Succeeded
            } else {
                Outcome::Failed
            },
            Action::CommitOwner(_) => if self.read_of(store) == Ok::<
                Option<DeviceIdentity>,
                StorageFault,
            >(None) && !self.commit_succeeds {
                Outcome::Failed
            } else {
                commit_outcome(self.read_of(store))
            },
            Action::UpdateConnParams(_) => if self.conn_params_succeed {
                Outcome::Succeeded
            } else {
                Outcome::Failed
            },
            Action::Finish => Outcome::Succeeded,
        }
    }
}

/// What was asked for while one connection was handled.
#[derive(Clone, Copy, Debug, PartialEq, Eq, Structural)]
pub struct Handled {
    /// The connection was to be terminated.
    pub disconnect_requested: bool,
    /// The peer was to be written as the owner.
    pub commit_requested: bool,
    /// The preferred connection parameters were asked for.
    pub conn_params_requested: bool,
}

/// The store after `action` was performed at it under `script`: only a commit
/// that succeeds writes.
pub open spec fn store_after(store: NvsView, action: Action, script: Script) -> NvsView {
    match action {
        Action::CommitOwner(identity) => if script.outcome_of(action, store) is Succeeded {
            store.with_owner_identity(identity)
        } else {
            store
        },
        _ => store,
    }
}

/// The store after a connection from `peer` was handled under `script`: it
/// changes only where no owner was read and the commit succeeded.
pub open spec fn store_after_connection(
    store: NvsView,
    peer: DeviceIdentity,
    script: Script,
) -> NvsView {
    if script.read_of(store) == Ok::<Option<DeviceIdentity>, StorageFault>(None)
        && script.commit_succeeds {
        store.with_owner_identity(peer)
    } else {
        store
    }
}

/// What is asked for while a connection from `peer` is handled under `script`.
/// The connection parameters are asked for where the peer is the owner or
/// becomes it, and never for a peer that is disconnected.
pub open spec fn requests_of_connection(
    store: NvsView,
    peer: DeviceIdentity,
    script: Script,
) -> Handled {
    match script.read_of(store) {
        Err(_) => Handled {
            disconnect_requested: false,
            commit_requested: false,
            conn_params_requested: false,
        },
        Ok(None) => Handled {
            disconnect_requested: false,
            commit_requested: true,
            conn_params_requested: true,
        },
        Ok(Some(owner)) => Handled {
            disconnect_requested: !owner.same_device(peer),
            commit_requested: false,
            conn_params_requested: owner.same_device(peer),
        },
    }
}

/// What is reported while a connection from `peer` is handled under `script`, in
/// the order in which it is reported.
pub open spec fn reports_of_connection(
    store: NvsView,
    peer: DeviceIdentity,
    script: Script,
) -> Seq<Report> {
    match script.read_of(store) {
        Err(fault) => seq![Report::ReadFailed(fault)],
        Ok(None) => if script.conn_params_succeed {
            seq![if script.commit_succeeds { Report::Paired } else { Report::CommitFailed }]
        } else {
            seq![
                if script.commit_succeeds { Report::Paired } else { Report::CommitFailed },
                Report::ConnParamsFailed,
            ]
        },
        Ok(Some(owner)) => if owner.same_device(peer) {
            if script.conn_params_succeed {
                seq![]
            } else {
                seq![Report::ConnParamsFailed]
            }
        } else if script.disconnect_succeeds {
            seq![Report::Unrecognized]
        } else {
            seq![Report::Unrecognized, Report::DisconnectFailed]
        },
    }
}

/// The reports so far, followed by `report` if there is one.
pub open spec fn with_report(reports: Seq<Report>, report: Option<Report>) -> Seq<Report> {
    match report {
        Some(report) => reports.push(report),
        None => reports,
    }
}

/// Reads the owner from the image, with the outcome that `script` gives the read.
fn read_owner(nvs: &Nvs, script: Script) -> (stored: Result<Option<DeviceIdentity>, StorageFault>)
    ensures
        stored == script.read_of(nvs@),
{
    if script.read_succeeds {
        Config::read_paired_id_address(nvs)
    } else {
        Err(StorageFault::ReadFailed)
    }
}

/// Performs `action` against the image, with the outcome that `script` gives it.
fn perform(nvs: &mut Nvs, action: Action, script: Script) -> (outcome: Outcome)
    ensures
        outcome == script.outcome_of(action, old(nvs)@),
        final(nvs)@ == store_after(old(nvs)@, action, script),
{
    match action {
        Action::Disconnect => if script.disconnect_succeeds {
            Outcome::Succeeded
        } else {
            Outcome::Failed
        },
        Action::CommitOwner(identity) => {
            if !script.read_succeeds {
                Outcome::Unreadable(StorageFault::ReadFailed)
            } else if script.commit_succeeds {
                commit_owner(nvs, identity)
            } else {
                match Config::read_paired_id_address(nvs) {
                    Ok(None) => Outcome::Failed,
                    Ok(Some(owner)) => Outcome::OwnerFound(owner),
                    Err(fault) => Outcome::Unreadable(fault),
                }
            }
        },
        Action::UpdateConnParams(_) => if script.conn_params_succeed {
            Outcome::Succeeded
        } else {
            Outcome::Failed
        },
        Action::Finish => Outcome::Succeeded,
    }
}

/// Adds what a decision reports, if anything, to the reports so far.
fn note(reports: &mut Vec<Report>, report: Option<Report>)
    ensures
        final(reports)@ == with_report(old(reports)@, report),
{
    match report {
        Some(report) => reports.push(report),
        None => {},
    }
}

/// Handles one connection from `peer` against an image of the store, with the
/// storage and the transport behaving as `script` says: reads the owner, then
/// follows [`on_connect`] and [`advance`] until the event is handled, which it
/// is after three decisions at most. Returns what was asked for and what was
/// reported on the way.
pub fn handle_connection(nvs: &mut Nvs, peer: DeviceIdentity, script: Script) -> (handled: (
    Handled,
    Vec<Report>,
))
    ensures
        final(nvs)@ == store_after_connection(old(nvs)@, peer, script),
        handled.0 == requests_of_connection(old(nvs)@, peer, script),
        handled.1@ == reports_of_connection(old(nvs)@, peer, script),
{
    let mut reports: Vec<Report> = Vec::new();
    let stored = read_owner(nvs, script);
    let first = on_connect(peer, stored);
    note(&mut reports, first.report);
    let outcome = perform(nvs, first.action, script);
    let second = advance(first.action, outcome);
    note(&mut reports, second.report);
    let outcome = perform(nvs, second.action, script);
    let last = advance(second.action, outcome);
    note(&mut reports, last.report);
    assert(last.action == Action::Finish);
    assert(reports@ =~= reports_of_connection(old(nvs)@, peer, script));
    let requests = Handled {
        disconnect_requested: matches!(first.action, Action::Disconnect),
        commit_requested: matches!(first.action, Action::CommitOwner(_)),
        conn_params_requested: matches!(first.action, Action::UpdateConnParams(_)) || matches!(
            second.action,
            Action::UpdateConnParams(_)
        ),
    };
    (requests, reports)
}

} // verus!
