use bag_pairing::config::{Config, Nvs, StorageFault};
use bag_pairing::identity::{AddressKind, DeviceIdentity};
use bag_pairing::pairing::{
    advance, commit_owner, handle_connection, on_connect, on_disconnect, preferred_conn_params,
    Action, ConnParams, Decision, Handled, Outcome, Report, Script,
};

const ALICE: [u8; 6] = [0x11, 0x22, 0x33, 0x44, 0x55, 0x66];
const BOB: [u8; 6] = [0xa0, 0xb1, 0xc2, 0xd3, 0xe4, 0xf5];

fn alice() -> DeviceIdentity {
    DeviceIdentity::from_le_bytes(ALICE, AddressKind::PublicId)
}

fn bob() -> DeviceIdentity {
    DeviceIdentity::from_le_bytes(BOB, AddressKind::PublicId)
}

fn all_well() -> Script {
    Script {
        read_succeeds: true,
        disconnect_succeeds: true,
        commit_succeeds: true,
        conn_params_succeed: true,
    }
}

fn update() -> Action {
    Action::UpdateConnParams(ConnParams {
        min_interval: 24,
        max_interval: 48,
        latency: 0,
        timeout: 60,
    })
}

#[test]
fn preferred_profile() {
    let p = preferred_conn_params();
    assert_eq!(p.min_interval, 24);
    assert_eq!(p.max_interval, 48);
    assert_eq!(p.latency, 0);
    assert_eq!(p.timeout, 60);
}

#[test]
fn on_connect_without_owner_commits_the_peer() {
    assert_eq!(
        on_connect(alice(), Ok(None)),
        Decision { action: Action::CommitOwner(alice()), report: None }
    );
}

#[test]
fn on_connect_from_owner_asks_for_parameters() {
    assert_eq!(
        on_connect(alice(), Ok(Some(alice()))),
        Decision { action: update(), report: None }
    );
}

#[test]
fn on_connect_recognises_owner_seen_as_another_kind() {
    let seen = DeviceIdentity::from_le_bytes(ALICE, AddressKind::Random);
    assert_eq!(on_connect(seen, Ok(Some(alice()))), Decision { action: update(), report: None });
}

#[test]
fn on_connect_from_stranger_disconnects() {
    assert_eq!(
        on_connect(bob(), Ok(Some(alice()))),
        Decision { action: Action::Disconnect, report: Some(Report::Unrecognized) }
    );
}

#[test]
fn on_connect_after_failed_read_does_nothing() {
    assert_eq!(
        on_connect(alice(), Err(StorageFault::ReadFailed)),
        Decision { action: Action::Finish, report: Some(Report::ReadFailed(StorageFault::ReadFailed)) }
    );
    assert_eq!(
        on_connect(bob(), Err(StorageFault::MalformedRecord)),
        Decision {
            action: Action::Finish,
            report: Some(Report::ReadFailed(StorageFault::MalformedRecord)),
        }
    );
}

#[test]
fn advance_after_disconnect_finishes() {
    assert_eq!(
        advance(Action::Disconnect, Outcome::Succeeded),
        Decision { action: Action::Finish, report: None }
    );
    assert_eq!(
        advance(Action::Disconnect, Outcome::Failed),
        Decision { action: Action::Finish, report: Some(Report::DisconnectFailed) }
    );
}

#[test]
fn advance_after_commit_admits_the_peer_whether_or_not_the_write_landed() {
    assert_eq!(
        advance(Action::CommitOwner(alice()), Outcome::Succeeded),
        Decision { action: update(), report: Some(Report::Paired) }
    );
    assert_eq!(
        advance(Action::CommitOwner(alice()), Outcome::Failed),
        Decision { action: update(), report: Some(Report::CommitFailed) }
    );
}

#[test]
fn advance_after_commit_that_found_an_owner_decides_as_on_connect() {
    assert_eq!(
        advance(Action::CommitOwner(bob()), Outcome::OwnerFound(alice())),
        Decision { action: Action::Disconnect, report: Some(Report::Unrecognized) }
    );
    assert_eq!(
        advance(Action::CommitOwner(alice()), Outcome::OwnerFound(alice())),
        Decision { action: update(), report: None }
    );
    assert_eq!(
        advance(Action::CommitOwner(alice()), Outcome::Unreadable(StorageFault::ReadFailed)),
        Decision {
            action: Action::Finish,
            report: Some(Report::ReadFailed(StorageFault::ReadFailed)),
        }
    );
}

#[test]
fn advance_after_parameters_finishes() {
    assert_eq!(
        advance(update(), Outcome::Succeeded),
        Decision { action: Action::Finish, report: None }
    );
    assert_eq!(
        advance(update(), Outcome::Failed),
        Decision { action: Action::Finish, report: Some(Report::ConnParamsFailed) }
    );
}

#[test]
fn advance_after_finish_stays_finished() {
    assert_eq!(
        advance(Action::Finish, Outcome::Succeeded),
        Decision { action: Action::Finish, report: None }
    );
    assert_eq!(
        advance(Action::Finish, Outcome::Failed),
        Decision { action: Action::Finish, report: None }
    );
}

#[test]
fn commit_writes_only_where_no_owner_is_on_record() {
    let mut nvs = Nvs::new();
    assert_eq!(commit_owner(&mut nvs, alice()), Outcome::Succeeded);
    assert_eq!(nvs.paired_id_address, Some(ALICE.to_vec()));
    assert_eq!(commit_owner(&mut nvs, bob()), Outcome::OwnerFound(alice()));
    assert_eq!(nvs.paired_id_address, Some(ALICE.to_vec()));
    assert_eq!(commit_owner(&mut nvs, alice()), Outcome::OwnerFound(alice()));
    assert_eq!(nvs.paired_id_address, Some(ALICE.to_vec()));

    let mut broken = Nvs::from_records(Some(vec![9, 9]), Some(1));
    assert_eq!(
        commit_owner(&mut broken, alice()),
        Outcome::Unreadable(StorageFault::MalformedRecord)
    );
    assert_eq!(broken, Nvs::from_records(Some(vec![9, 9]), Some(1)));
}

#[test]
fn on_disconnect_only_reports() {
    assert_eq!(
        on_disconnect(531),
        Decision { action: Action::Finish, report: Some(Report::Disconnected(531)) }
    );
}

#[test]
fn first_connect_pairs() {
    let mut nvs = Nvs::new();
    let (handled, reports) = handle_connection(&mut nvs, alice(), all_well());
    assert_eq!(
        handled,
        Handled { disconnect_requested: false, commit_requested: true, conn_params_requested: true }
    );
    assert_eq!(reports, vec![Report::Paired]);
    assert_eq!(Config::read_paired_id_address(&nvs), Ok(Some(alice())));
    assert_eq!(nvs.paired_id_address, Some(ALICE.to_vec()));
    assert_eq!(nvs.setup_finished, None);
}

#[test]
fn owner_reconnects() {
    let mut nvs = Nvs::from_records(Some(ALICE.to_vec()), Some(1));
    let before = nvs.clone();
    let (handled, reports) = handle_connection(&mut nvs, alice(), all_well());
    assert_eq!(
        handled,
        Handled { disconnect_requested: false, commit_requested: false, conn_params_requested: true }
    );
    assert_eq!(reports, vec![]);
    assert_eq!(nvs, before);
}

#[test]
fn impostor_is_rejected() {
    let mut nvs = Nvs::from_records(Some(ALICE.to_vec()), None);
    let before = nvs.clone();
    let script = Script { disconnect_succeeds: false, ..all_well() };
    let (handled, reports) = handle_connection(&mut nvs, bob(), script);
    assert_eq!(reports, vec![Report::Unrecognized, Report::DisconnectFailed]);
    assert_eq!(
        handled,
        Handled {
            disconnect_requested: true,
            commit_requested: false,
            conn_params_requested: false,
        }
    );
    assert_eq!(nvs, before);
    assert_eq!(Config::read_paired_id_address(&nvs), Ok(Some(alice())));
}

#[test]
fn nothing_follows_the_disconnect_of_an_impostor() {
    let mut nvs = Nvs::from_records(Some(vec![1, 2, 3, 4, 5, 6]), None);
    let peer = DeviceIdentity::from_le_bytes([1, 2, 3, 4, 5, 7], AddressKind::PublicId);
    for conn_params_succeed in [true, false] {
        let script = Script { conn_params_succeed, ..all_well() };
        let (handled, reports) = handle_connection(&mut nvs, peer, script);
        assert_eq!(
            handled,
            Handled {
                disconnect_requested: true,
                commit_requested: false,
                conn_params_requested: false,
            }
        );
        assert_eq!(reports, vec![Report::Unrecognized]);
        assert_eq!(nvs, Nvs::from_records(Some(vec![1, 2, 3, 4, 5, 6]), None));
    }
}

#[test]
fn pairing_twice_is_pairing_once() {
    let mut nvs = Nvs::new();
    let (first, _) = handle_connection(&mut nvs, alice(), all_well());
    let once = nvs.clone();
    let (second, _) = handle_connection(&mut nvs, alice(), all_well());
    assert!(!first.disconnect_requested);
    assert!(!second.disconnect_requested);
    assert!(!second.commit_requested);
    assert_eq!(nvs, once);
    assert_eq!(Config::read_paired_id_address(&nvs), Ok(Some(alice())));
}

#[test]
fn failed_commit_still_admits_and_pairs_later() {
    let mut nvs = Nvs::new();
    let flaky = Script { commit_succeeds: false, conn_params_succeed: false, ..all_well() };
    let (handled, reports) = handle_connection(&mut nvs, alice(), flaky);
    assert_eq!(reports, vec![Report::CommitFailed, Report::ConnParamsFailed]);
    assert_eq!(
        handled,
        Handled { disconnect_requested: false, commit_requested: true, conn_params_requested: true }
    );
    assert_eq!(Config::read_paired_id_address(&nvs), Ok(None));
    let (again, _) = handle_connection(&mut nvs, bob(), all_well());
    assert!(again.commit_requested);
    assert_eq!(Config::read_paired_id_address(&nvs), Ok(Some(bob())));
}

#[test]
fn malformed_record_leaves_connection_and_store_alone() {
    let mut nvs = Nvs::from_records(Some(vec![1, 2, 3]), Some(0));
    let before = nvs.clone();
    let (handled, reports) = handle_connection(&mut nvs, alice(), all_well());
    assert_eq!(
        handled,
        Handled {
            disconnect_requested: false,
            commit_requested: false,
            conn_params_requested: false,
        }
    );
    assert_eq!(reports, vec![Report::ReadFailed(StorageFault::MalformedRecord)]);
    assert_eq!(nvs, before);
}

#[test]
fn failed_read_leaves_connection_and_store_alone() {
    let unreadable = Script { read_succeeds: false, ..all_well() };
    for records in [None, Some(ALICE.to_vec()), Some(BOB.to_vec())] {
        let mut nvs = Nvs::from_records(records, None);
        let before = nvs.clone();
        let (handled, reports) = handle_connection(&mut nvs, alice(), unreadable);
        assert_eq!(
            handled,
            Handled {
                disconnect_requested: false,
                commit_requested: false,
                conn_params_requested: false,
            }
        );
        assert_eq!(reports, vec![Report::ReadFailed(StorageFault::ReadFailed)]);
        assert_eq!(nvs, before);
    }
}

#[test]
fn every_fault_of_the_read_is_reported_and_ends_the_event() {
    let faults = [
        StorageFault::PartitionUnavailable,
        StorageFault::NamespaceUnavailable,
        StorageFault::ReadFailed,
        StorageFault::WriteFailed,
        StorageFault::MalformedRecord,
    ];
    for fault in faults {
        let decision = on_connect(alice(), Err(fault));
        assert_eq!(decision.action, Action::Finish);
        assert_eq!(decision.report, Some(Report::ReadFailed(fault)));
    }
}

#[test]
fn owner_on_record_is_never_replaced() {
    for peer in [alice(), bob()] {
        for bits in 0u32..16 {
            let script = Script {
                read_succeeds: bits & 1 != 0,
                disconnect_succeeds: bits & 2 != 0,
                commit_succeeds: bits & 4 != 0,
                conn_params_succeed: bits & 8 != 0,
            };
            let mut nvs = Nvs::from_records(Some(ALICE.to_vec()), Some(1));
            let before = nvs.clone();
            let (handled, _) = handle_connection(&mut nvs, peer, script);
            assert!(!handled.commit_requested);
            assert_eq!(nvs, before);
        }
    }
}
