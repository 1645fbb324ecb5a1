//! Connection events that overlap.
//!
//! A handler touches the store in turns: one to read the owner and, where there
//! was none, one to commit the peer. Each turn holds the store's lock from start
//! to end, and the lock is never held between turns, so the turns of two
//! handlers may come in any order. The commit reads the store again before it
//! writes, so the first commit stands. This module plays such orders against
//! an image of the store.

use vstd::prelude::*;
use crate::config::{Config, Nvs, NvsView};
use crate::identity::DeviceIdentity;
use crate::pairing::{commit_owner, on_connect, spec_on_connect, Action};

verus! {

/// How far a handler has come with the store.
#[derive(Clone, Copy, Debug, PartialEq, Eq, Structural)]
pub enum Progress {
    /// The connection is there; the owner was not read yet.
    Arrived,
    /// No owner was found; the peer is about to be committed.
    Committing,
    /// The handler has no further business with the store.
    Settled,
}

/// A handler at work on a connection from `peer`.
#[derive(Clone, Copy, Debug, PartialEq, Eq)]
pub struct Contender {
    pub peer: DeviceIdentity,
    pub progress: Progress,
}

impl Contender {
    /// A handler whose connection has just arrived.
    pub open spec fn spec_arrive(peer: DeviceIdentity) -> Contender {
        Contender { peer, progress: Progress::Arrived }
    }

    /// A handler whose connection has just arrived.
    #[verifier::when_used_as_spec(spec_arrive)]
    pub fn arrive(peer: DeviceIdentity) -> (contender: Contender)
        ensures
            contender == Contender::spec_arrive(peer),
    {
        Contender { peer, progress: Progress::Arrived }
    }

    /// The handler after its next turn at `store`.
    pub open spec fn after_turn(self, store: NvsView) -> Contender {
        match self.progress {
            Progress::Arrived => match spec_on_connect(self.peer, store.owner_identity()).action {
                Action::CommitOwner(_) => Contender { progress: Progress::Committing, ..self },
                _ => Contender { progress: Progress::Settled, ..self },
            },
            _ => Contender { progress: Progress::Settled, ..self },
        }
    }

    /// The store after the handler's next turn: it changes only in the turn that
    /// commits the peer, and only if there is still no owner on record.
    pub open spec fn store_after_turn(self, store: NvsView) -> NvsView {
        match self.progress {
            Progress::Committing => store.with_owner_if_absent(self.peer),
            _ => store,
        }
    }

    /// Takes the handler's next turn at the store.
    pub fn take_turn(&mut self, nvs: &mut Nvs)
        ensures
            *final(self) == old(self).after_turn(old(nvs)@),
            final(nvs)@ == old(self).store_after_turn(old(nvs)@),
    {
        match self.progress {
            Progress::Arrived => {
                let stored = Config::read_paired_id_address(nvs);
                match on_connect(self.peer, stored).action {
                    Action::CommitOwner(_) => {
                        self.progress = Progress::Committing;
                    },
                    _ => {
                        self.progress = Progress::Settled;
                    },
                }
            },
            Progress::Committing => {
                let _ = commit_owner(nvs, self.peer);
                self.progress = Progress::Settled;
            },
            Progress::Settled => {},
        }
    }
}

/// Two handlers and the store they share.
pub struct Race {
    pub store: NvsView,
    pub first: Contender,
    pub second: Contender,
}

impl Race {
    /// The race after one more turn, taken by the first handler if `first_moves`
    /// and by the second if not.
    pub open spec fn after_turn(self, first_moves: bool) -> Race {
        if first_moves {
            Race {
                store: self.first.store_after_turn(self.store),
                first: self.first.after_turn(self.store),
                second: self.second,
            }
        } else {
            Race {
                store: self.second.store_after_turn(self.store),
                first: self.first,
                second: self.second.after_turn(self.store),
            }
        }
    }

    /// The race after the turns of `schedule` were taken in order.
    pub open spec fn after(self, schedule: Seq<bool>) -> Race
        decreases schedule.len(),
    {
        if schedule.len() == 0 {
            self
        } else {
            self.after(schedule.drop_last()).after_turn(schedule.last())
        }
    }

    /// Whether both handlers are done with the store.
    pub open spec fn settled(self) -> bool {
        self.first.progress == Progress::Settled && self.second.progress == Progress::Settled
    }
}

/// Plays two connections that arrive together, from `first` and from `second`,
/// against an image of the store. Each entry of `schedule` gives the next turn
/// to the first handler if it is `true` and to the second if not. Returns
/// whether both handlers were done with the store when the schedule ended.
pub fn run_race(
    nvs: &mut Nvs,
    first: DeviceIdentity,
    second: DeviceIdentity,
    schedule: &Vec<bool>,
) -> (settled: bool)
    ensures
        ({
            let start = Race {
                store: old(nvs)@,
                first: Contender::spec_arrive(first),
                second: Contender::spec_arrive(second),
            };
            &&& final(nvs)@ == start.after(schedule@).store
            &&& settled == start.after(schedule@).settled()
        }),
{
    let ghost start = Race {
        store: nvs@,
        first: Contender::spec_arrive(first),
        second: Contender::spec_arrive(second),
    };
    let mut one = Contender::arrive(first);
    let mut other = Contender::arrive(second);
    let mut turn: usize = 0;
    while turn < schedule.len()
        invariant
            turn <= schedule.len(),
            start.after(schedule@.take(turn as int)) == (Race {
                store: nvs@,
                first: one,
                second: other,
            }),
        decreases schedule.len() - turn,
    {
        proof {
            assert(schedule@.take(turn + 1).drop_last() =~= schedule@.take(turn as int));
        }
        if schedule[turn] {
            one.take_turn(nvs);
        } else {
            other.take_turn(nvs);
        }
        turn = turn + 1;
    }
    proof {
        assert(schedule@.take(turn as int) =~= schedule@);
    }
    matches!(one.progress, Progress::Settled) && matches!(other.progress, Progress::Settled)
}

} // verus!
