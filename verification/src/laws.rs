//! Laws of the launch site, proved once and for all over the transition
//! predicates that the operations' contracts establish. Each lemma's inputs
//! are the states and results of the calls it speaks about, related by those
//! predicates, so it covers every run of the corresponding operations.

use vstd::prelude::*;
use crate::actions::{Event, LaunchError};
use crate::settle::{execute_session_post, strategy_for};
use crate::simulation::strategy_earnings;
use crate::site::{CurrentSession, Environment, LaunchSite, SessionStrategy,
    new_session_post, register_participant_post, rename_participant_post};
use crate::table::has_key;

verus! {

/// Registering the same identity twice always fails the second time with
/// `DuplicateParticipant`, and the failure mutates nothing: the state after
/// the second call is exactly the state the first call produced.
pub proof fn lemma_duplicate_participant_rejected(
    pre: LaunchSite,
    mid: LaunchSite,
    post: LaunchSite,
    caller: u64,
    name1: Seq<char>,
    name2: Seq<char>,
    r1: Result<Event, LaunchError>,
    r2: Result<Event, LaunchError>,
)
    requires
        !has_key(pre.participants@, caller),
        register_participant_post(pre, mid, caller, name1, r1),
        register_participant_post(mid, post, caller, name2, r2),
    ensures
        r1 is Ok,
        r2 == Result::<Event, LaunchError>::Err(LaunchError::DuplicateParticipant),
        post == mid,
{
    assert(has_key(mid.participants@, caller));
}

/// Renaming an identity that never registered always fails with
/// `UnknownParticipant` and never creates a record: the site is unchanged.
pub proof fn lemma_rename_unknown_rejected(
    pre: LaunchSite,
    post: LaunchSite,
    caller: u64,
    name: Seq<char>,
    r: Result<Event, LaunchError>,
)
    requires
        !has_key(pre.participants@, caller),
        rename_participant_post(pre, post, caller, name, r),
    ensures
        r == Result::<Event, LaunchError>::Err(LaunchError::UnknownParticipant),
        post == pre,
{
}

/// Opening a session as anyone but the owner always fails with `NotOwner`
/// and leaves the session state — indeed the whole site — unchanged.
pub proof fn lemma_new_session_not_owner_rejected(
    pre: LaunchSite,
    post: LaunchSite,
    caller: u64,
    env: Environment,
    r: Result<Event, LaunchError>,
)
    requires
        caller != pre.owner,
        new_session_post(pre, post, caller, env, r),
    ensures
        r == Result::<Event, LaunchError>::Err(LaunchError::NotOwner),
        post == pre,
{
}

/// Settlement is destructive: a successful settlement leaves no session
/// behind, and a second settlement then fails with `NoActiveSession` without
/// changing anything.
pub proof fn lemma_settlement_destructive(
    pre: LaunchSite,
    mid: LaunchSite,
    post: LaunchSite,
    r1: Result<Event, LaunchError>,
    r2: Result<Event, LaunchError>,
)
    requires
        execute_session_post(pre, mid, r1),
        r1 is Ok,
        execute_session_post(mid, post, r2),
    ensures
        mid.current_session is None,
        r2 == Result::<Event, LaunchError>::Err(LaunchError::NoActiveSession),
        post == mid,
{
}

/// After a settlement the owner can open a session again: on a site with no
/// session, opening by the owner succeeds.
pub proof fn lemma_owner_reopens_after_settlement(
    mid: LaunchSite,
    post: LaunchSite,
    env: Environment,
    r: Result<Event, LaunchError>,
)
    requires
        mid.current_session is None,
        new_session_post(mid, post, mid.owner, env, r),
    ensures
        r is Ok,
        post.current_session is Some,
{
}

/// Earnings depend on the payload and the payload value alone, never on
/// survival: two strategies with the same payload earn the same however
/// their fuel — and with it their survival — differs.
pub proof fn lemma_earnings_ignore_survival(
    a: SessionStrategy,
    b: SessionStrategy,
    payload_value: u32,
)
    requires
        a.payload == b.payload,
    ensures
        strategy_earnings(a, payload_value) == strategy_earnings(b, payload_value),
{
}

/// Settlement adds to balances, it never replaces them: a participant whose
/// identity registered a strategy ends with its prior balance plus exactly
/// `payload * payload_value`, and one that sat the session out keeps its
/// balance as it was.
pub proof fn lemma_settlement_adds_earnings(
    pre: LaunchSite,
    post: LaunchSite,
    session: CurrentSession,
    r: Result<Event, LaunchError>,
    i: int,
)
    requires
        pre.current_session == Some(session),
        execute_session_post(pre, post, r),
        r is Ok,
        0 <= i < pre.participants@.len(),
    ensures
        has_key(session.registered@, pre.participants@[i].0)
            ==> post.participants@[i].1.balance as int
                == pre.participants@[i].1.balance
                    + strategy_for(session.registered@, pre.participants@[i].0).payload as int
                        * session.payload_value as int,
        !has_key(session.registered@, pre.participants@[i].0)
            ==> post.participants@[i].1.balance == pre.participants@[i].1.balance,
{
}

} // verus!
