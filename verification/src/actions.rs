//! The action surface of the launch site and the events and errors it
//! reports. Actions arrive one at a time, already decoded by the host
//! transport; every action either completes and yields one event or fails
//! with one error before any state has changed.

use vstd::prelude::*;
use crate::settle::execute_session_post;
use crate::site::{Environment, LaunchSite, new_session_post, register_on_launch_post,
    register_participant_post, rename_participant_post};

verus! {

/// One decoded request addressed to the launch site.
#[derive(Debug)]
pub enum Action {
    Info,
    RegisterParticipant(String),
    ChangeParticipantName(String),
    StartNewSession,
    RegisterOnLaunch { fuel_amount: u32, payload_amount: u32 },
    ExecuteSession,
}

/// The event replied to the caller when an action succeeds.
///
/// `LaunchFinished` carries one `(identity, survived, final altitude,
/// earnings)` entry per registered strategy, in ascending identity order.
#[derive(Debug)]
pub enum Event {
    Info { owner: u64, name: String, has_current_session: bool },
    NewParticipant { id: u64, name: String },
    ParticipantNameChange { id: u64, name: String },
    NewLaunch { id: u32, name: String, weather: u32, altitude: u32, fuel_price: u32, payload_value: u32 },
    LaunchRegistration { id: u32, participant: u64 },
    LaunchFinished { id: u32, stats: Vec<(u64, bool, u32, u64)> },
}

/// Why an action was rejected. Every error is detected before any mutation,
/// so a failed action leaves the site exactly as it found it.
///
/// `BalanceOverflow` reports a settlement whose credit would not fit in a
/// participant's balance; arithmetic is never allowed to wrap silently.
#[derive(Debug, Clone, Copy, PartialEq, Eq, Structural)]
pub enum LaunchError {
    DuplicateParticipant,
    UnknownParticipant,
    NotOwner,
    SessionAlreadyOpen,
    NoActiveSession,
    DuplicateRegistration,
    BalanceOverflow,
}

/// Routes one action to the site. `caller` is the identity that sent the
/// message; `env` carries the environment parameters drawn from the external
/// provider, read only when the action is `StartNewSession`.
pub fn handle(site: &mut LaunchSite, caller: u64, env: Environment, action: Action)
    -> (r: Result<Event, LaunchError>)
    requires
        old(site).well_formed(),
    ensures
        final(site).well_formed(),
        match action {
            Action::Info => {
                &&& *final(site) == *old(site)
                &&& (r matches Ok(ev) && (ev matches Event::Info { owner, name, has_current_session }
                        && owner == old(site).owner
                        && name@ == old(site).name@
                        && has_current_session == (old(site).current_session is Some)))
            },
            Action::RegisterParticipant(name) =>
                register_participant_post(*old(site), *final(site), caller, name@, r),
            Action::ChangeParticipantName(name) =>
                rename_participant_post(*old(site), *final(site), caller, name@, r),
            Action::StartNewSession =>
                new_session_post(*old(site), *final(site), caller, env, r),
            Action::RegisterOnLaunch { fuel_amount, payload_amount } =>
                register_on_launch_post(*old(site), *final(site), caller,
                    fuel_amount, payload_amount, r),
            Action::ExecuteSession =>
                execute_session_post(*old(site), *final(site), r),
        },
{
    match action {
        Action::Info => Ok(site.info()),
        Action::RegisterParticipant(name) => site.new_participant(caller, name),
        Action::ChangeParticipantName(name) => site.rename_participant(caller, name),
        Action::StartNewSession => site.new_session(caller, env),
        Action::RegisterOnLaunch { fuel_amount, payload_amount } =>
            site.register_on_launch(caller, fuel_amount, payload_amount),
        Action::ExecuteSession => site.execute_session(),
    }
}

} // verus!
