//! Settlement: the atomic consumption of the open session. The session is
//! removed, the simulation is run over its strategies, and every registered
//! participant's balance is credited with its earnings. Settlement is
//! all-or-nothing: both failure modes — a strategist that never registered
//! as a participant, and a credit that would not fit in a balance — are
//! detected before the first balance changes, and leave the site untouched.

use vstd::prelude::*;
use crate::actions::{Event, LaunchError};
use crate::simulation::{simulate, outcomes_match, strategy_earnings};
use crate::site::{LaunchSite, Participant, SessionStrategy};
use crate::table::{find_index, has_key, key_index, lemma_key_index, sorted_unique};

verus! {

/// The strategy registered for `id`; meaningful only when the table holds it.
pub open spec fn strategy_for(reg: Seq<(u64, SessionStrategy)>, id: u64) -> SessionStrategy {
    reg[key_index(reg, id)].1
}

/// What settlement credits to the participant with identity `id`: the
/// earnings of its registered strategy, or nothing if it sat this session out.
pub open spec fn credit_of(reg: Seq<(u64, SessionStrategy)>, payload_value: u32, id: u64) -> int {
    if has_key(reg, id) {
        strategy_earnings(strategy_for(reg, id), payload_value)
    } else {
        0
    }
}

/// Some registered strategy belongs to an identity with no participant record.
pub open spec fn some_strategist_unknown(
    participants: Seq<(u64, Participant)>,
    reg: Seq<(u64, SessionStrategy)>,
) -> bool {
    exists|j: int| 0 <= j < reg.len() && !has_key(participants, (#[trigger] reg[j]).0)
}

/// Some participant's balance cannot take its credit without overflowing.
pub open spec fn some_balance_overflows(
    participants: Seq<(u64, Participant)>,
    reg: Seq<(u64, SessionStrategy)>,
    payload_value: u32,
) -> bool {
    exists|i: int| 0 <= i < participants.len()
        && (#[trigger] participants[i]).1.balance
            + credit_of(reg, payload_value, participants[i].0) > u64::MAX
}

/// What executing a session does. With no session open, or with a strategist
/// that never registered, or with a balance that cannot take its credit, the
/// matching error is reported and the site is untouched. Otherwise the
/// session is gone, the event carries the simulation's outcomes, and every
/// participant's balance has grown by exactly its credit — name, identity
/// and order of the records unchanged.
pub open spec fn execute_session_post(
    pre: LaunchSite,
    post: LaunchSite,
    r: Result<Event, LaunchError>,
) -> bool {
    match pre.current_session {
        None => {
            &&& r == Result::<Event, LaunchError>::Err(LaunchError::NoActiveSession)
            &&& post == pre
        },
        Some(session) => {
            if some_strategist_unknown(pre.participants@, session.registered@) {
                &&& r == Result::<Event, LaunchError>::Err(LaunchError::UnknownParticipant)
                &&& post == pre
            } else if some_balance_overflows(pre.participants@, session.registered@,
                    session.payload_value) {
                &&& r == Result::<Event, LaunchError>::Err(LaunchError::BalanceOverflow)
                &&& post == pre
            } else {
                &&& (r matches Ok(ev) && (ev matches Event::LaunchFinished { id, stats }
                        && id == 0
                        && outcomes_match(session.altitude, session.payload_value,
                            session.registered@, stats@)))
                &&& post.owner == pre.owner
                &&& post.name == pre.name
                &&& post.current_session is None
                &&& post.participants@.len() == pre.participants@.len()
                &&& forall|i: int| 0 <= i < pre.participants@.len() ==> {
                        let p0 = #[trigger] pre.participants@[i];
                        let p1 = post.participants@[i];
                        &&& p1.0 == p0.0
                        &&& p1.1.name == p0.1.name
                        &&& p1.1.balance as int == p0.1.balance
                            + credit_of(session.registered@, session.payload_value, p0.0)
                    }
            }
        },
    }
}

impl LaunchSite {
    /// Settles the open session: removes it, simulates the launch, credits
    /// every registered participant's earnings, and reports the outcomes.
    pub fn execute_session(&mut self) -> (r: Result<Event, LaunchError>)
        requires
            old(self).well_formed(),
        ensures
            final(self).well_formed(),
            execute_session_post(*old(self), *final(self), r),
    {
        let session = match self.current_session.take() {
            None => {
                return Err(LaunchError::NoActiveSession);
            },
            Some(session) => session,
        };

        // Every strategist must hold a participant record before anything is
        // credited; otherwise the session is put back untouched.
        let mut j: usize = 0;
        while j < session.registered.len()
            invariant
                j <= session.registered@.len(),
                old(self).well_formed(),
                old(self).current_session == Some(session),
                self.name == old(self).name,
                self.owner == old(self).owner,
                self.participants == old(self).participants,
                self.current_session is None,
                forall|q: int| 0 <= q < j
                    ==> has_key(self.participants@, (#[trigger] session.registered@[q]).0),
            decreases session.registered@.len() - j,
        {
            if find_index(&self.participants, session.registered[j].0).is_none() {
                proof {
                    assert(!has_key(self.participants@, session.registered@[j as int].0));
                    assert(some_strategist_unknown(old(self).participants@, session.registered@));
                }
                self.current_session = Some(session);
                return Err(LaunchError::UnknownParticipant);
            }
            j = j + 1;
        }

        // Every credit must fit in its balance before anything is credited.
        let mut i: usize = 0;
        while i < self.participants.len()
            invariant
                i <= self.participants@.len(),
                old(self).well_formed(),
                old(self).current_session == Some(session),
                self.name == old(self).name,
                self.owner == old(self).owner,
                self.participants == old(self).participants,
                self.current_session is None,
                !some_strategist_unknown(old(self).participants@, session.registered@),
                forall|q: int| 0 <= q < i
                    ==> (#[trigger] self.participants@[q]).1.balance
                        + credit_of(session.registered@, session.payload_value,
                            self.participants@[q].0) <= u64::MAX,
            decreases self.participants@.len() - i,
        {
            let id = self.participants[i].0;
            match find_index(&session.registered, id) {
                None => {},
                Some(k) => {
                    proof {
                        lemma_key_index(session.registered@, id, k as int);
                    }
                    let strategy = session.registered[k].1;
                    proof {
                        assert(strategy.payload as int * session.payload_value as int
                            <= u64::MAX as int) by (nonlinear_arith)
                            requires
                                strategy.payload as int <= u32::MAX as int,
                                session.payload_value as int <= u32::MAX as int;
                    }
                    let earnings: u64 = (strategy.payload as u64) * (session.payload_value as u64);
                    if self.participants[i].1.balance > u64::MAX - earnings {
                        proof {
                            assert((self.participants@[i as int]).1.balance
                                + credit_of(session.registered@, session.payload_value,
                                    self.participants@[i as int].0) > u64::MAX);
                            assert(some_balance_overflows(old(self).participants@,
                                session.registered@, session.payload_value));
                        }
                        self.current_session = Some(session);
                        return Err(LaunchError::BalanceOverflow);
                    }
                },
            }
            i = i + 1;
        }

        let outcomes = simulate(&session);

        // All checks passed: credit every registered participant's earnings.
        let mut i: usize = 0;
        while i < self.participants.len()
            invariant
                i <= self.participants@.len(),
                old(self).well_formed(),
                old(self).current_session == Some(session),
                self.name == old(self).name,
                self.owner == old(self).owner,
                self.current_session is None,
                !some_strategist_unknown(old(self).participants@, session.registered@),
                !some_balance_overflows(old(self).participants@, session.registered@,
                    session.payload_value),
                outcomes_match(session.altitude, session.payload_value,
                    session.registered@, outcomes@),
                self.participants@.len() == old(self).participants@.len(),
                forall|q: int| 0 <= q < old(self).participants@.len()
                    ==> (#[trigger] old(self).participants@[q]).1.balance
                        + credit_of(session.registered@, session.payload_value,
                            old(self).participants@[q].0) <= u64::MAX,
                forall|q: int| i <= q < old(self).participants@.len()
                    ==> #[trigger] self.participants@[q] == old(self).participants@[q],
                forall|q: int| 0 <= q < i ==> {
                    let p0 = #[trigger] old(self).participants@[q];
                    let p1 = self.participants@[q];
                    &&& p1.0 == p0.0
                    &&& p1.1.name == p0.1.name
                    &&& p1.1.balance as int == p0.1.balance
                        + credit_of(session.registered@, session.payload_value, p0.0)
                },
            decreases self.participants@.len() - i,
        {
            let id = self.participants[i].0;
            match find_index(&session.registered, id) {
                None => {},
                Some(k) => {
                    proof {
                        lemma_key_index(session.registered@, id, k as int);
                    }
                    let strategy = session.registered[k].1;
                    proof {
                        assert(strategy.payload as int * session.payload_value as int
                            <= u64::MAX as int) by (nonlinear_arith)
                            requires
                                strategy.payload as int <= u32::MAX as int,
                                session.payload_value as int <= u32::MAX as int;
                    }
                    let earnings: u64 = (strategy.payload as u64) * (session.payload_value as u64);
                    let balance = self.participants[i].1.balance;
                    self.participants[i].1.balance = balance + earnings;
                },
            }
            i = i + 1;
        }

        proof {
            assert forall|a: int, b: int| 0 <= a < b < self.participants@.len()
                implies (#[trigger] self.participants@[a]).0
                    < (#[trigger] self.participants@[b]).0 by {
                assert((old(self).participants@[a]).0 < (old(self).participants@[b]).0);
            }
        }
        Ok(Event::LaunchFinished { id: 0, stats: outcomes })
    }
}

} // verus!
