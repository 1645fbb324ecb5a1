//! What holds of pairing and of the store together, for every store, every peer
//! and every behaviour of the transport.

use vstd::prelude::*;
use crate::config::{NvsView, StorageFault};
use crate::identity::DeviceIdentity;
use crate::race::{Contender, Progress, Race};
use crate::pairing::{
    requests_of_connection, spec_advance, spec_on_connect, spec_preferred_conn_params,
    store_after_connection, Action, Decision, Outcome, Report, Script,
};

verus! {

/// Resolving keeps the device. An identity and its resolved form name the same
/// device, resolving twice changes nothing, an identity in resolved form is its
/// own resolved form, and two identities name the same device exactly when
/// their resolved forms are equal.
pub proof fn resolving_keeps_the_device(a: DeviceIdentity, b: DeviceIdentity)
    ensures
        a.spec_resolved().spec_is_resolved(),
        a.spec_resolved().spec_resolved() == a.spec_resolved(),
        a.spec_same_device(a.spec_resolved()),
        a.spec_is_resolved() ==> a.spec_resolved() == a,
        a.spec_same_device(b) <==> a.spec_resolved() == b.spec_resolved(),
        a == b ==> a.spec_same_device(b),
{
}

/// The owner is recognised by its address. Whatever identity was read as the
/// owner, a peer equal to it is admitted, and a peer is disconnected exactly
/// when its address bytes differ from the owner's; the kind under which either
/// was seen plays no part.
pub proof fn owner_is_recognised_by_address(owner: DeviceIdentity, peer: DeviceIdentity)
    ensures
        spec_on_connect(owner, Ok(Some(owner))).action == Action::UpdateConnParams(
            spec_preferred_conn_params(),
        ),
        spec_on_connect(peer, Ok(Some(owner))).action == Action::Disconnect
            <==> !peer.spec_same_device(owner),
        spec_on_connect(peer, Ok(Some(owner))).action == Action::UpdateConnParams(
            spec_preferred_conn_params(),
        ) <==> peer.spec_same_device(owner),
        spec_on_connect(peer, Ok(Some(owner))) == spec_on_connect(
            peer.spec_resolved(),
            Ok(Some(owner.spec_resolved())),
        ),
{
    assert(peer.bytes == owner.bytes <==> owner.bytes == peer.bytes);
}

/// Among identities in resolved public form an impostor is whoever is not the
/// owner. Two such identities are equal exactly when their bytes are, so a peer
/// in that form is disconnected exactly when it differs from an owner in that
/// form, and admitted exactly when it equals it.
pub proof fn resolved_impostor_is_whoever_differs(owner: DeviceIdentity, peer: DeviceIdentity)
    requires
        owner.spec_is_resolved(),
        peer.spec_is_resolved(),
    ensures
        spec_on_connect(peer, Ok(Some(owner))).action == Action::Disconnect <==> peer != owner,
        spec_on_connect(peer, Ok(Some(owner))).action == Action::UpdateConnParams(
            spec_preferred_conn_params(),
        ) <==> peer == owner,
{
    assert(peer.bytes == owner.bytes <==> owner.bytes == peer.bytes);
}

/// The first connection pairs. Where no owner is on record, the peer is never
/// disconnected and is to be written as the owner. If the write succeeds, the
/// owner on record is afterwards the peer in resolved public form, which is the
/// peer itself if it came in that form. Whether or not the write succeeds, the
/// preferred connection parameters are asked for next.
pub proof fn first_connect_pairs(store: NvsView, peer: DeviceIdentity, script: Script)
    requires
        store.owner_identity() == Ok::<Option<DeviceIdentity>, StorageFault>(None),
        script.read_succeeds,
    ensures
        spec_on_connect(peer, store.owner_identity()).action == Action::CommitOwner(peer),
        spec_advance(Action::CommitOwner(peer), Outcome::Succeeded).action
            == Action::UpdateConnParams(spec_preferred_conn_params()),
        spec_advance(Action::CommitOwner(peer), Outcome::Failed).action
            == Action::UpdateConnParams(spec_preferred_conn_params()),
        !requests_of_connection(store, peer, script).disconnect_requested,
        requests_of_connection(store, peer, script).commit_requested,
        requests_of_connection(store, peer, script).conn_params_requested,
        script.commit_succeeds ==> store_after_connection(store, peer, script).owner_identity()
            == Ok::<Option<DeviceIdentity>, StorageFault>(Some(peer.spec_resolved())),
        script.commit_succeeds && peer.spec_is_resolved() ==> store_after_connection(
            store,
            peer,
            script,
        ).owner_identity() == Ok::<Option<DeviceIdentity>, StorageFault>(Some(peer)),
        !script.commit_succeeds ==> store_after_connection(store, peer, script) == store,
        store_after_connection(store, peer, script).setup_finished == store.setup_finished,
{
    written_owner_reads_back(store, peer);
}

/// The owner is admitted. Where `owner` is on record, a connection from `owner`
/// is not disconnected, the preferred connection parameters are asked for, and
/// the store stays as it is.
pub proof fn owner_is_admitted(store: NvsView, owner: DeviceIdentity, script: Script)
    requires
        store.owner_identity() == Ok::<Option<DeviceIdentity>, StorageFault>(Some(owner)),
        script.read_succeeds,
    ensures
        spec_on_connect(owner, store.owner_identity()).action == Action::UpdateConnParams(
            spec_preferred_conn_params(),
        ),
        !requests_of_connection(store, owner, script).disconnect_requested,
        !requests_of_connection(store, owner, script).commit_requested,
        requests_of_connection(store, owner, script).conn_params_requested,
        store_after_connection(store, owner, script) == store,
{
}

/// An impostor is rejected. Where `owner` is on record, a connection from a peer
/// with another address is answered first of all by a disconnect, and nothing
/// follows the disconnect, whether or not it succeeds: no connection
/// parameters are asked for, nothing is written, and the store stays as it is.
/// More generally a peer is disconnected exactly when its address differs from
/// the owner's.
pub proof fn impostor_is_rejected(
    store: NvsView,
    owner: DeviceIdentity,
    peer: DeviceIdentity,
    script: Script,
)
    requires
        store.owner_identity() == Ok::<Option<DeviceIdentity>, StorageFault>(Some(owner)),
        script.read_succeeds,
    ensures
        !peer.spec_same_device(owner) ==> spec_on_connect(peer, store.owner_identity()).action
            == Action::Disconnect,
        forall|outcome: Outcome| #[trigger]
            spec_advance(Action::Disconnect, outcome).action == Action::Finish,
        spec_advance(Action::Disconnect, Outcome::Succeeded) == (Decision {
            action: Action::Finish,
            report: None,
        }),
        requests_of_connection(store, peer, script).disconnect_requested
            <==> !peer.spec_same_device(owner),
        !peer.spec_same_device(owner) ==> !requests_of_connection(
            store,
            peer,
            script,
        ).conn_params_requested,
        !requests_of_connection(store, peer, script).commit_requested,
        store_after_connection(store, peer, script) == store,
        store_after_connection(store, peer, script).owner_identity()
            == Ok::<Option<DeviceIdentity>, StorageFault>(Some(owner)),
{
    assert(peer.bytes == owner.bytes <==> owner.bytes == peer.bytes);
}

/// Pairing twice is pairing once. Where no owner is on record and the first
/// write succeeds, two connections from the same peer in a row leave that peer
/// on record: the second one changes nothing and is not disconnected.
pub proof fn pairing_is_idempotent(
    store: NvsView,
    peer: DeviceIdentity,
    first: Script,
    second: Script,
)
    requires
        store.owner_identity() == Ok::<Option<DeviceIdentity>, StorageFault>(None),
        first.read_succeeds,
        first.commit_succeeds,
        second.read_succeeds,
    ensures
        ({
            let once = store_after_connection(store, peer, first);
            let twice = store_after_connection(once, peer, second);
            &&& twice == once
            &&& twice.owner_identity() == Ok::<Option<DeviceIdentity>, StorageFault>(
                Some(peer.spec_resolved()),
            )
            &&& !requests_of_connection(store, peer, first).disconnect_requested
            &&& !requests_of_connection(once, peer, second).disconnect_requested
            &&& !requests_of_connection(once, peer, second).commit_requested
        }),
{
    written_owner_reads_back(store, peer);
}

/// A paired device is never re-paired by a connection. Whatever the peer and
/// whatever fails, handling a connection leaves the flag alone and writes to
/// the store only where no owner was read; in particular an owner on record
/// stays on record.
pub proof fn owner_on_record_stays(store: NvsView, peer: DeviceIdentity, script: Script)
    ensures
        store_after_connection(store, peer, script).setup_finished == store.setup_finished,
        script.read_of(store) != Ok::<Option<DeviceIdentity>, StorageFault>(None)
            ==> store_after_connection(store, peer, script) == store,
        store.owner_identity() is Ok && store.owner_identity() != Ok::<
            Option<DeviceIdentity>,
            StorageFault,
        >(None) ==> store_after_connection(store, peer, script) == store,
        requests_of_connection(store, peer, script).commit_requested <==> script.read_of(store)
            == Ok::<Option<DeviceIdentity>, StorageFault>(None),
{
}

/// What is written is what is read. After `owner` and then `flag` were written,
/// the store reads `owner` in resolved public form (which is `owner` itself if it
/// was given in that form) and `flag`, and so does every image made of the same
/// records: both reads depend on the records alone.
pub proof fn records_survive_reopening(
    store: NvsView,
    owner: DeviceIdentity,
    flag: bool,
    reopened: NvsView,
)
    requires
        reopened.paired_id_address == store.with_owner_identity(owner).with_setup_finished(
            flag,
        ).paired_id_address,
        reopened.setup_finished == store.with_owner_identity(owner).with_setup_finished(
            flag,
        ).setup_finished,
    ensures
        reopened.owner_identity() == Ok::<Option<DeviceIdentity>, StorageFault>(
            Some(owner.spec_resolved()),
        ),
        owner.spec_is_resolved() ==> reopened.owner_identity() == Ok::<
            Option<DeviceIdentity>,
            StorageFault,
        >(Some(owner)),
        reopened.setup_finished_flag() == Some(flag),
{
    written_owner_reads_back(store, owner);
}

/// Writing an owner makes it the owner on record, in resolved public form, and
/// leaves the flag alone; writing the flag leaves the owner alone.
pub proof fn written_owner_reads_back(store: NvsView, owner: DeviceIdentity)
    ensures
        store.with_owner_identity(owner).owner_identity() == Ok::<
            Option<DeviceIdentity>,
            StorageFault,
        >(Some(owner.spec_resolved())),
        store.with_owner_identity(owner).setup_finished_flag() == store.setup_finished_flag(),
        forall|flag: bool| #[trigger]
            store.with_setup_finished(flag).owner_identity() == store.owner_identity(),
        forall|flag: bool| #[trigger]
            store.with_setup_finished(flag).setup_finished_flag() == Some(flag),
{
    let blob = crate::config::encode_identity(owner);
    assert(blob.len() == 6);
    assert(crate::config::address_of(blob) =~= owner.bytes);
}

/// A failed read leaves the connection alone. Whatever fault reading the owner
/// gives, the event is handled at once and the fault is reported; where the
/// read fails or the record is malformed, no disconnect, no write and no
/// connection parameters are asked for, and the store stays as it is.
pub proof fn read_fault_leaves_connection_alone(
    store: NvsView,
    peer: DeviceIdentity,
    fault: StorageFault,
    script: Script,
)
    ensures
        spec_on_connect(peer, Err(fault)).action == Action::Finish,
        forall|outcome: Outcome| #[trigger]
            spec_advance(Action::Finish, outcome).action == Action::Finish,
        spec_on_connect(peer, Err(fault)).report == Some(Report::ReadFailed(fault)),
        script.read_of(store) is Err ==> {
            &&& store_after_connection(store, peer, script) == store
            &&& !requests_of_connection(store, peer, script).disconnect_requested
            &&& !requests_of_connection(store, peer, script).commit_requested
            &&& !requests_of_connection(store, peer, script).conn_params_requested
        },
{
}

/// What holds at every moment while connections from `first` and `second` race
/// for a store that had no owner when they arrived.
pub open spec fn race_is_sound(race: Race, first: DeviceIdentity, second: DeviceIdentity) -> bool {
    let owner = race.store.owner_identity();
    &&& race.first.peer == first
    &&& race.second.peer == second
    &&& owner == Ok::<Option<DeviceIdentity>, StorageFault>(None) || owner == Ok::<
        Option<DeviceIdentity>,
        StorageFault,
    >(Some(first.spec_resolved())) || owner == Ok::<Option<DeviceIdentity>, StorageFault>(
        Some(second.spec_resolved()),
    )
    &&& race.first.progress == Progress::Settled || race.second.progress == Progress::Settled
        ==> owner != Ok::<Option<DeviceIdentity>, StorageFault>(None)
}

/// Racing connections settle on one owner. Two connections arrive together at a
/// store without an owner, and their turns at the store come in any order. Then
/// at every moment the owner on record is absent, the first peer or the second
/// (each in resolved public form): never a mixture of the two, never a malformed
/// record. As soon as one handler is done with the store an owner is on record,
/// and the flag is never touched. By [`first_commit_stands`] the owner that is
/// on record at any moment is the owner at every later moment.
pub proof fn racing_connections_settle_on_one_owner(
    store: NvsView,
    first: DeviceIdentity,
    second: DeviceIdentity,
    schedule: Seq<bool>,
)
    requires
        store.owner_identity() == Ok::<Option<DeviceIdentity>, StorageFault>(None),
    ensures
        ({
            let start = Race {
                store,
                first: Contender::spec_arrive(first),
                second: Contender::spec_arrive(second),
            };
            let end = start.after(schedule);
            let owner = end.store.owner_identity();
            &&& race_is_sound(end, first, second)
            &&& end.store.setup_finished == store.setup_finished
            &&& end.settled() ==> owner == Ok::<Option<DeviceIdentity>, StorageFault>(
                Some(first.spec_resolved()),
            ) || owner == Ok::<Option<DeviceIdentity>, StorageFault>(
                Some(second.spec_resolved()),
            )
        }),
    decreases schedule.len(),
{
    let start = Race {
        store,
        first: Contender::spec_arrive(first),
        second: Contender::spec_arrive(second),
    };
    if schedule.len() > 0 {
        racing_connections_settle_on_one_owner(store, first, second, schedule.drop_last());
        let before = start.after(schedule.drop_last());
        written_owner_reads_back(before.store, first);
        written_owner_reads_back(before.store, second);
    }
}

/// A turn at a store with an owner on record, or with a malformed record,
/// changes nothing: only a store without an owner is ever written.
pub proof fn turn_writes_only_without_owner(store: NvsView, contender: Contender)
    ensures
        store.owner_identity() != Ok::<Option<DeviceIdentity>, StorageFault>(None)
            ==> contender.store_after_turn(store) == store,
        contender.store_after_turn(store) == store || contender.store_after_turn(store)
            == store.with_owner_identity(contender.peer),
{
}

/// Taking the turns of `schedule` and then those of `more` is taking the turns
/// of the two in a row.
pub proof fn race_in_two_parts(race: Race, schedule: Seq<bool>, more: Seq<bool>)
    ensures
        race.after(schedule + more) == race.after(schedule).after(more),
    decreases more.len(),
{
    if more.len() == 0 {
        assert(schedule + more =~= schedule);
    } else {
        assert((schedule + more).drop_last() =~= schedule + more.drop_last());
        assert((schedule + more).last() == more.last());
        race_in_two_parts(race, schedule, more.drop_last());
    }
}

/// The first commit stands. Whatever two handlers race and wherever they are,
/// once an owner is on record after the turns of `schedule`, the store is the
/// same after any further turns: the owner is never replaced and no update of
/// the first commit is lost.
pub proof fn first_commit_stands(
    race: Race,
    schedule: Seq<bool>,
    more: Seq<bool>,
    owner: DeviceIdentity,
)
    requires
        race.after(schedule).store.owner_identity() == Ok::<Option<DeviceIdentity>, StorageFault>(
            Some(owner),
        ),
    ensures
        race.after(schedule + more).store == race.after(schedule).store,
        race.after(schedule + more).store.owner_identity() == Ok::<
            Option<DeviceIdentity>,
            StorageFault,
        >(Some(owner)),
    decreases more.len(),
{
    race_in_two_parts(race, schedule, more);
    if more.len() > 0 {
        first_commit_stands(race, schedule, more.drop_last(), owner);
        race_in_two_parts(race, schedule, more.drop_last());
    }
}

} // verus!
