//! The launch site aggregate: participant registry and session lifecycle.
//!
//! A `LaunchSite` owns the participant registry and at most one session.
//! Every operation takes the identity of the caller as a plain value (the
//! host transport knows who sent the message) and either returns the event
//! to reply with or an error, without having changed anything.

use vstd::prelude::*;
use crate::actions::{Event, LaunchError};
use crate::table::{sorted_unique, has_key, key_index, find_index, insert_position,
    lemma_key_index, lemma_insert_sorted};

verus! {

/// The resources a participant commits to one session: fuel to burn and
/// payload to carry. Immutable once registered; consumed by settlement.
#[derive(Clone, Copy, Debug, PartialEq, Eq, Structural)]
pub struct SessionStrategy {
    pub fuel: u32,
    pub payload: u32,
}

/// The environment parameters of a session, fixed at session creation and
/// supplied by an external provider (fixed constants in tests, entropy in a
/// real deployment).
#[derive(Clone, Copy, Debug, PartialEq, Eq, Structural)]
pub struct Environment {
    pub weather: u32,
    pub altitude: u32,
    pub fuel_price: u32,
    pub payload_value: u32,
}

/// One open launch attempt: its environment and the strategies registered so
/// far, keyed by participant identity in ascending order.
#[derive(Debug)]
pub struct CurrentSession {
    pub altitude: u32,
    pub weather: u32,
    pub fuel_price: u32,
    pub payload_value: u32,
    pub registered: Vec<(u64, SessionStrategy)>,
}

/// A registered participant: a display name and an accumulated balance.
///
/// The balance is wider than the per-session amounts so that many settlements
/// can accumulate before the explicit overflow check ever fires.
#[derive(Debug)]
pub struct Participant {
    pub name: String,
    pub balance: u64,
}

/// The root aggregate: site name, immutable owner identity, the participant
/// registry, and at most one session.
#[derive(Debug)]
pub struct LaunchSite {
    pub name: String,
    pub owner: u64,
    pub participants: Vec<(u64, Participant)>,
    pub current_session: Option<CurrentSession>,
}

impl LaunchSite {
    /// Both tables are sorted by strictly increasing identity.
    pub open spec fn well_formed(self) -> bool {
        &&& sorted_unique(self.participants@)
        &&& (self.current_session matches Some(s) ==> sorted_unique(s.registered@))
    }

    /// A fresh site: the given name and owner, nobody registered, no session.
    pub fn new(name: String, owner: u64) -> (site: LaunchSite)
        ensures
            site.well_formed(),
            site.name@ == name@,
            site.owner == owner,
            site.participants@.len() == 0,
            site.current_session is None,
    {
        LaunchSite {
            name,
            owner,
            participants: Vec::new(),
            current_session: None,
        }
    }

    /// A pure read of the site: its name, its owner, and whether a session is
    /// currently open.
    pub fn info(&self) -> (ev: Event)
        ensures
            (ev matches Event::Info { owner, name, has_current_session }
                && owner == self.owner
                && name@ == self.name@
                && has_current_session == (self.current_session is Some)),
    {
        Event::Info {
            owner: self.owner,
            name: self.name.clone(),
            has_current_session: self.current_session.is_some(),
        }
    }
}

/// What registering a participant does: a duplicate identity is rejected
/// without mutation; a fresh identity gains a record with the given name and
/// balance zero, inserted at its sorted position, everything else unchanged.
pub open spec fn register_participant_post(
    pre: LaunchSite,
    post: LaunchSite,
    caller: u64,
    name: Seq<char>,
    r: Result<Event, LaunchError>,
) -> bool {
    if has_key(pre.participants@, caller) {
        &&& r == Result::<Event, LaunchError>::Err(LaunchError::DuplicateParticipant)
        &&& post == pre
    } else {
        &&& (r matches Ok(ev) && (ev matches Event::NewParticipant { id, name: n }
                && id == caller && n@ == name))
        &&& post.owner == pre.owner
        &&& post.name == pre.name
        &&& post.current_session == pre.current_session
        &&& exists|i: int|
            0 <= i < post.participants@.len()
            && (#[trigger] post.participants@[i]).0 == caller
            && post.participants@[i].1.name@ == name
            && post.participants@[i].1.balance == 0
            && post.participants@ == pre.participants@.insert(i, post.participants@[i])
    }
}

/// What renaming a participant does: an unknown identity is rejected without
/// mutation; a known one has exactly its own record's name replaced, with the
/// balance and every other record untouched.
pub open spec fn rename_participant_post(
    pre: LaunchSite,
    post: LaunchSite,
    caller: u64,
    name: Seq<char>,
    r: Result<Event, LaunchError>,
) -> bool {
    let ki = key_index(pre.participants@, caller);
    if !has_key(pre.participants@, caller) {
        &&& r == Result::<Event, LaunchError>::Err(LaunchError::UnknownParticipant)
        &&& post == pre
    } else {
        &&& (r matches Ok(ev) && (ev matches Event::ParticipantNameChange { id, name: n }
                && id == caller && n@ == name))
        &&& post.owner == pre.owner
        &&& post.name == pre.name
        &&& post.current_session == pre.current_session
        &&& post.participants@.len() == pre.participants@.len()
        &&& post.participants@[ki].0 == caller
        &&& post.participants@[ki].1.name@ == name
        &&& post.participants@[ki].1.balance == pre.participants@[ki].1.balance
        &&& forall|j: int| 0 <= j < pre.participants@.len() && j != ki
                ==> #[trigger] post.participants@[j] == pre.participants@[j]
    }
}

/// What opening a session does: only the owner may open one, and only while
/// none exists; errors leave the site untouched. On success the session holds
/// exactly the provided environment and no strategies, and the registry is
/// untouched. A non-owner is rejected before the session state is looked at.
pub open spec fn new_session_post(
    pre: LaunchSite,
    post: LaunchSite,
    caller: u64,
    env: Environment,
    r: Result<Event, LaunchError>,
) -> bool {
    if caller != pre.owner {
        &&& r == Result::<Event, LaunchError>::Err(LaunchError::NotOwner)
        &&& post == pre
    } else if pre.current_session is Some {
        &&& r == Result::<Event, LaunchError>::Err(LaunchError::SessionAlreadyOpen)
        &&& post == pre
    } else {
        &&& (r matches Ok(ev) && (ev matches Event::NewLaunch {
                id, name: n, weather, altitude, fuel_price, payload_value }
                && id == 0
                && n@ == "Unnamed"@
                && weather == env.weather
                && altitude == env.altitude
                && fuel_price == env.fuel_price
                && payload_value == env.payload_value))
        &&& post.owner == pre.owner
        &&& post.name == pre.name
        &&& post.participants == pre.participants
        &&& (post.current_session matches Some(s)
                && s.weather == env.weather
                && s.altitude == env.altitude
                && s.fuel_price == env.fuel_price
                && s.payload_value == env.payload_value
                && s.registered@.len() == 0)
    }
}

/// What registering a strategy does: rejected without mutation when no
/// session is open or the identity already committed one; otherwise the
/// strategy is inserted at its sorted position and nothing else changes.
/// Prior participant registration is deliberately not required here; an
/// identity that never registers is caught at settlement time.
pub open spec fn register_on_launch_post(
    pre: LaunchSite,
    post: LaunchSite,
    caller: u64,
    fuel_amount: u32,
    payload_amount: u32,
    r: Result<Event, LaunchError>,
) -> bool {
    match pre.current_session {
        None => {
            &&& r == Result::<Event, LaunchError>::Err(LaunchError::NoActiveSession)
            &&& post == pre
        },
        Some(session) => {
            if has_key(session.registered@, caller) {
                &&& r == Result::<Event, LaunchError>::Err(LaunchError::DuplicateRegistration)
                &&& post == pre
            } else {
                &&& (r matches Ok(ev) && (ev matches Event::LaunchRegistration { id, participant }
                        && id == 0 && participant == caller))
                &&& post.owner == pre.owner
                &&& post.name == pre.name
                &&& post.participants == pre.participants
                &&& (post.current_session matches Some(s)
                        && s.weather == session.weather
                        && s.altitude == session.altitude
                        && s.fuel_price == session.fuel_price
                        && s.payload_value == session.payload_value
                        && (exists|i: int|
                            0 <= i <= session.registered@.len()
                            && s.registered@ == session.registered@.insert(i,
                                (caller, SessionStrategy { fuel: fuel_amount, payload: payload_amount }))))
            }
        },
    }
}

impl LaunchSite {
    /// Registers the calling identity with the given display name and a
    /// balance of zero; a second registration of the same identity is a
    /// `DuplicateParticipant` error.
    pub fn new_participant(&mut self, caller: u64, name: String) -> (r: Result<Event, LaunchError>)
        requires
            old(self).well_formed(),
        ensures
            final(self).well_formed(),
            register_participant_post(*old(self), *final(self), caller, name@, r),
    {
        match find_index(&self.participants, caller) {
            Some(i) => {
                proof {
                    lemma_key_index(self.participants@, caller, i as int);
                }
                Err(LaunchError::DuplicateParticipant)
            },
            None => {
                let p = insert_position(&self.participants, caller);
                let record = Participant { name: name.clone(), balance: 0 };
                let ghost entry = (caller, record);
                proof {
                    lemma_insert_sorted(self.participants@, p as int, entry);
                    self.participants@.insert_ensures(p as int, entry);
                }
                self.participants.insert(p, (caller, record));
                proof {
                    assert(self.participants@ == old(self).participants@.insert(p as int, entry));
                    assert((self.participants@[p as int]).0 == caller);
                }
                Ok(Event::NewParticipant { id: caller, name })
            },
        }
    }

    /// Replaces the display name of the calling identity's record; renaming
    /// an identity that never registered is an `UnknownParticipant` error and
    /// creates nothing.
    pub fn rename_participant(&mut self, caller: u64, name: String) -> (r: Result<Event, LaunchError>)
        requires
            old(self).well_formed(),
        ensures
            final(self).well_formed(),
            rename_participant_post(*old(self), *final(self), caller, name@, r),
    {
        match find_index(&self.participants, caller) {
            None => Err(LaunchError::UnknownParticipant),
            Some(i) => {
                proof {
                    lemma_key_index(self.participants@, caller, i as int);
                }
                self.participants[i].1.name = name.clone();
                Ok(Event::ParticipantNameChange { id: caller, name })
            },
        }
    }

    /// Opens a new session with the given environment parameters. Only the
    /// site owner may open one, and only while no session exists.
    pub fn new_session(&mut self, caller: u64, env: Environment) -> (r: Result<Event, LaunchError>)
        requires
            old(self).well_formed(),
        ensures
            final(self).well_formed(),
            new_session_post(*old(self), *final(self), caller, env, r),
    {
        if caller != self.owner {
            return Err(LaunchError::NotOwner);
        }
        if self.current_session.is_some() {
            return Err(LaunchError::SessionAlreadyOpen);
        }
        self.current_session = Some(CurrentSession {
            weather: env.weather,
            altitude: env.altitude,
            fuel_price: env.fuel_price,
            payload_value: env.payload_value,
            registered: Vec::new(),
        });
        Ok(Event::NewLaunch {
            id: 0,
            name: "Unnamed".to_owned(),
            weather: env.weather,
            altitude: env.altitude,
            fuel_price: env.fuel_price,
            payload_value: env.payload_value,
        })
    }

    /// Commits the calling identity's strategy for the open session; each
    /// identity may commit at most one strategy per session.
    pub fn register_on_launch(&mut self, caller: u64, fuel_amount: u32, payload_amount: u32)
        -> (r: Result<Event, LaunchError>)
        requires
            old(self).well_formed(),
        ensures
            final(self).well_formed(),
            register_on_launch_post(*old(self), *final(self), caller, fuel_amount, payload_amount, r),
    {
        match &mut self.current_session {
            None => Err(LaunchError::NoActiveSession),
            Some(session) => {
                match find_index(&session.registered, caller) {
                    Some(i) => {
                        proof {
                            lemma_key_index(session.registered@, caller, i as int);
                        }
                        Err(LaunchError::DuplicateRegistration)
                    },
                    None => {
                        let p = insert_position(&session.registered, caller);
                        let strategy = SessionStrategy { fuel: fuel_amount, payload: payload_amount };
                        proof {
                            lemma_insert_sorted(session.registered@, p as int, (caller, strategy));
                            session.registered@.insert_ensures(p as int, (caller, strategy));
                        }
                        session.registered.insert(p, (caller, strategy));
                        Ok(Event::LaunchRegistration { id: 0, participant: caller })
                    },
                }
            },
        }
    }
}

} // verus!
