use launch_site::actions::{Action, Event, LaunchError};
use launch_site::site::{Environment, LaunchSite, Participant, SessionStrategy, CurrentSession};

fn test_env() -> Environment {
    Environment { weather: 100, altitude: 120_000, fuel_price: 100, payload_value: 100 }
}

fn site_with_owner(owner: u64) -> LaunchSite {
    LaunchSite::new("test site".to_owned(), owner)
}

#[test]
fn new_site_is_empty() {
    let site = site_with_owner(1);
    assert_eq!(site.owner, 1);
    assert_eq!(site.name, "test site");
    assert!(site.participants.is_empty());
    assert!(site.current_session.is_none());
}

#[test]
fn info_reports_name_owner_and_session_flag() {
    let mut site = site_with_owner(7);
    match site.info() {
        Event::Info { owner, name, has_current_session } => {
            assert_eq!(owner, 7);
            assert_eq!(name, "test site");
            assert!(!has_current_session);
        },
        _ => panic!("wrong event"),
    }
    site.new_session(7, test_env()).unwrap();
    match site.info() {
        Event::Info { has_current_session, .. } => assert!(has_current_session),
        _ => panic!("wrong event"),
    }
}

#[test]
fn register_participant_creates_record() {
    let mut site = site_with_owner(1);
    let r = site.new_participant(2, "alice".to_owned());
    match r {
        Ok(Event::NewParticipant { id, name }) => {
            assert_eq!(id, 2);
            assert_eq!(name, "alice");
        },
        _ => panic!("registration should succeed"),
    }
    assert_eq!(site.participants.len(), 1);
    assert_eq!(site.participants[0].0, 2);
    assert_eq!(site.participants[0].1.name, "alice");
    assert_eq!(site.participants[0].1.balance, 0);
}

#[test]
fn duplicate_registration_fails_without_mutation() {
    let mut site = site_with_owner(1);
    site.new_participant(2, "alice".to_owned()).unwrap();
    let r = site.new_participant(2, "impostor".to_owned());
    assert_eq!(r.unwrap_err(), LaunchError::DuplicateParticipant);
    // The stored record is the one from the first call only.
    assert_eq!(site.participants.len(), 1);
    assert_eq!(site.participants[0].1.name, "alice");
    assert_eq!(site.participants[0].1.balance, 0);
}

#[test]
fn rename_unknown_fails_and_creates_nothing() {
    let mut site = site_with_owner(1);
    let r = site.rename_participant(9, "ghost".to_owned());
    assert_eq!(r.unwrap_err(), LaunchError::UnknownParticipant);
    assert!(site.participants.is_empty());
}

#[test]
fn rename_replaces_name_and_keeps_balance() {
    let mut site = site_with_owner(1);
    site.new_participant(2, "alice".to_owned()).unwrap();
    let r = site.rename_participant(2, "alicia".to_owned());
    match r {
        Ok(Event::ParticipantNameChange { id, name }) => {
            assert_eq!(id, 2);
            assert_eq!(name, "alicia");
        },
        _ => panic!("rename should succeed"),
    }
    assert_eq!(site.participants[0].1.name, "alicia");
    assert_eq!(site.participants[0].1.balance, 0);
}

#[test]
fn non_owner_cannot_open_session() {
    let mut site = site_with_owner(1);
    let r = site.new_session(2, test_env());
    assert_eq!(r.unwrap_err(), LaunchError::NotOwner);
    assert!(site.current_session.is_none());
}

#[test]
fn second_open_session_fails() {
    let mut site = site_with_owner(1);
    site.new_session(1, test_env()).unwrap();
    let r = site.new_session(1, test_env());
    assert_eq!(r.unwrap_err(), LaunchError::SessionAlreadyOpen);
    assert!(site.current_session.is_some());
}

#[test]
fn open_session_carries_environment() {
    let mut site = site_with_owner(1);
    let r = site.new_session(1, test_env());
    match r {
        Ok(Event::NewLaunch { id, name, weather, altitude, fuel_price, payload_value }) => {
            assert_eq!(id, 0);
            assert_eq!(name, "Unnamed");
            assert_eq!(weather, 100);
            assert_eq!(altitude, 120_000);
            assert_eq!(fuel_price, 100);
            assert_eq!(payload_value, 100);
        },
        _ => panic!("open should succeed"),
    }
    let session = site.current_session.as_ref().unwrap();
    assert_eq!(session.altitude, 120_000);
    assert_eq!(session.payload_value, 100);
    assert!(session.registered.is_empty());
}

#[test]
fn strategy_needs_open_session() {
    let mut site = site_with_owner(1);
    let r = site.register_on_launch(2, 300, 100);
    assert_eq!(r.unwrap_err(), LaunchError::NoActiveSession);
}

#[test]
fn one_strategy_per_identity_per_session() {
    let mut site = site_with_owner(1);
    site.new_session(1, test_env()).unwrap();
    let r = site.register_on_launch(2, 300, 100);
    match r {
        Ok(Event::LaunchRegistration { id, participant }) => {
            assert_eq!(id, 0);
            assert_eq!(participant, 2);
        },
        _ => panic!("strategy registration should succeed"),
    }
    let r2 = site.register_on_launch(2, 1, 1);
    assert_eq!(r2.unwrap_err(), LaunchError::DuplicateRegistration);
    let session = site.current_session.as_ref().unwrap();
    assert_eq!(session.registered.len(), 1);
    assert_eq!(session.registered[0].1, SessionStrategy { fuel: 300, payload: 100 });
}

#[test]
fn execute_without_session_fails() {
    let mut site = site_with_owner(1);
    let r = site.execute_session();
    assert_eq!(r.unwrap_err(), LaunchError::NoActiveSession);
}

#[test]
fn unknown_strategist_aborts_whole_settlement() {
    let mut site = site_with_owner(1);
    site.new_participant(2, "alice".to_owned()).unwrap();
    site.new_session(1, test_env()).unwrap();
    site.register_on_launch(2, 300, 100).unwrap();
    // Identity 3 committed a strategy but never registered as a participant.
    site.register_on_launch(3, 300, 100).unwrap();
    let r = site.execute_session();
    assert_eq!(r.unwrap_err(), LaunchError::UnknownParticipant);
    // All-or-nothing: nothing was credited and the session is still open.
    assert_eq!(site.participants[0].1.balance, 0);
    assert!(site.current_session.is_some());
}

#[test]
fn altitude_increment_is_one_third_of_the_ceiling() {
    // With a ceiling of 120000 and 3 rounds each round climbs exactly 40000,
    // and a survivor ends at exactly 120000.
    let mut site = site_with_owner(1);
    site.new_participant(2, "alice".to_owned()).unwrap();
    site.new_session(1, test_env()).unwrap();
    site.register_on_launch(2, 300, 100).unwrap();
    let r = site.execute_session();
    match r {
        Ok(Event::LaunchFinished { id, stats }) => {
            assert_eq!(id, 0);
            assert_eq!(stats, vec![(2, true, 120_000, 10_000)]);
        },
        _ => panic!("settlement should succeed"),
    }
}

#[test]
fn truncated_increment_is_not_redistributed() {
    // 100 / 3 == 33: a survivor ends at 99, not 100.
    let mut site = site_with_owner(1);
    site.new_participant(2, "alice".to_owned()).unwrap();
    let env = Environment { weather: 0, altitude: 100, fuel_price: 1, payload_value: 1 };
    site.new_session(1, env).unwrap();
    site.register_on_launch(2, 10, 0).unwrap();
    match site.execute_session() {
        Ok(Event::LaunchFinished { stats, .. }) => {
            assert_eq!(stats, vec![(2, true, 99, 0)]);
        },
        _ => panic!("settlement should succeed"),
    }
}

#[test]
fn no_fuel_fails_in_round_one_at_altitude_zero() {
    // fuel = 0, payload = 300: the per-round burn is 100, so the participant
    // is dead after round 1 with its altitude frozen at 0.
    let mut site = site_with_owner(1);
    site.new_participant(2, "alice".to_owned()).unwrap();
    site.new_session(1, test_env()).unwrap();
    site.register_on_launch(2, 0, 300).unwrap();
    match site.execute_session() {
        Ok(Event::LaunchFinished { stats, .. }) => {
            assert_eq!(stats, vec![(2, false, 0, 30_000)]);
        },
        _ => panic!("settlement should succeed"),
    }
}

#[test]
fn fuel_is_checked_but_never_consumed() {
    // Characterization: fuel is compared against the per-round burn but not
    // decremented. A fuel of exactly one round's burn (300 / 3 = 100) passes
    // the same check in every round and survives the whole flight; were fuel
    // consumed, the flight would fail in round 2.
    let mut site = site_with_owner(1);
    site.new_participant(2, "alice".to_owned()).unwrap();
    site.new_session(1, test_env()).unwrap();
    site.register_on_launch(2, 100, 300).unwrap();
    match site.execute_session() {
        Ok(Event::LaunchFinished { stats, .. }) => {
            assert_eq!(stats, vec![(2, true, 120_000, 30_000)]);
        },
        _ => panic!("settlement should succeed"),
    }
}

#[test]
fn settlement_is_destructive() {
    let mut site = site_with_owner(1);
    site.new_participant(2, "alice".to_owned()).unwrap();
    site.new_session(1, test_env()).unwrap();
    site.register_on_launch(2, 300, 100).unwrap();
    site.execute_session().unwrap();
    assert!(site.current_session.is_none());
    let r = site.execute_session();
    assert_eq!(r.unwrap_err(), LaunchError::NoActiveSession);
    // Until a new session is opened.
    site.new_session(1, test_env()).unwrap();
    site.register_on_launch(2, 300, 100).unwrap();
    assert!(site.execute_session().is_ok());
}

#[test]
fn earnings_accumulate_into_balances() {
    // Earnings are payload * payload_value whatever the survival outcome,
    // and each settlement adds to the prior balance.
    let mut site = site_with_owner(1);
    site.new_participant(2, "alice".to_owned()).unwrap();
    site.new_session(1, test_env()).unwrap();
    site.register_on_launch(2, 100, 100).unwrap();
    site.execute_session().unwrap();
    assert_eq!(site.participants[0].1.balance, 10_000);
    // A second, failing flight still earns payload * payload_value.
    site.new_session(1, test_env()).unwrap();
    site.register_on_launch(2, 0, 300).unwrap();
    site.execute_session().unwrap();
    assert_eq!(site.participants[0].1.balance, 10_000 + 30_000);
}

#[test]
fn balance_overflow_aborts_whole_settlement() {
    let mut site = LaunchSite {
        name: "test site".to_owned(),
        owner: 1,
        participants: vec![
            (2, Participant { name: "rich".to_owned(), balance: u64::MAX - 5 }),
            (3, Participant { name: "poor".to_owned(), balance: 0 }),
        ],
        current_session: Some(CurrentSession {
            altitude: 120_000,
            weather: 100,
            fuel_price: 100,
            payload_value: 100,
            registered: vec![
                (2, SessionStrategy { fuel: 300, payload: 100 }),
                (3, SessionStrategy { fuel: 300, payload: 100 }),
            ],
        }),
    };
    let r = site.execute_session();
    assert_eq!(r.unwrap_err(), LaunchError::BalanceOverflow);
    // All-or-nothing: neither balance moved, the session is still there.
    assert_eq!(site.participants[0].1.balance, u64::MAX - 5);
    assert_eq!(site.participants[1].1.balance, 0);
    assert!(site.current_session.is_some());
}

#[test]
fn empty_session_settles_to_no_outcomes() {
    let mut site = site_with_owner(1);
    site.new_session(1, test_env()).unwrap();
    match site.execute_session() {
        Ok(Event::LaunchFinished { stats, .. }) => assert!(stats.is_empty()),
        _ => panic!("settlement should succeed"),
    }
    assert!(site.current_session.is_none());
}

#[test]
fn zero_amounts_never_panic() {
    let mut site = site_with_owner(1);
    site.new_participant(2, "alice".to_owned()).unwrap();
    let env = Environment { weather: 0, altitude: 0, fuel_price: 0, payload_value: 0 };
    site.new_session(1, env).unwrap();
    site.register_on_launch(2, 0, 0).unwrap();
    match site.execute_session() {
        // A burn of 0 is covered by a fuel of 0, so the flight survives.
        Ok(Event::LaunchFinished { stats, .. }) => assert_eq!(stats, vec![(2, true, 0, 0)]),
        _ => panic!("settlement should succeed"),
    }
}

#[test]
fn outcomes_are_ordered_by_ascending_identity() {
    let mut site = site_with_owner(1);
    site.new_participant(9, "late".to_owned()).unwrap();
    site.new_participant(4, "early".to_owned()).unwrap();
    site.new_session(1, test_env()).unwrap();
    // Registration order is descending; the outcome order is not.
    site.register_on_launch(9, 300, 100).unwrap();
    site.register_on_launch(4, 300, 100).unwrap();
    match site.execute_session() {
        Ok(Event::LaunchFinished { stats, .. }) => {
            assert_eq!(stats.len(), 2);
            assert_eq!(stats[0].0, 4);
            assert_eq!(stats[1].0, 9);
        },
        _ => panic!("settlement should succeed"),
    }
}

#[test]
fn end_to_end_scenario() {
    // Owner opens a session; two participants register strategies
    // (fuel=300, payload=100) and (fuel=50, payload=300); settlement reports
    // the first alive at 120000 with earnings 10000, the second dead after
    // round 1 (fuel 50 < burn 100) at altitude 0 with earnings 30000.
    let mut site = site_with_owner(1);
    site.new_participant(2, "alice".to_owned()).unwrap();
    site.new_participant(3, "bob".to_owned()).unwrap();
    site.new_session(1, test_env()).unwrap();
    site.register_on_launch(2, 300, 100).unwrap();
    site.register_on_launch(3, 50, 300).unwrap();
    match site.execute_session() {
        Ok(Event::LaunchFinished { stats, .. }) => {
            assert_eq!(stats, vec![(2, true, 120_000, 10_000), (3, false, 0, 30_000)]);
        },
        _ => panic!("settlement should succeed"),
    }
    assert_eq!(site.participants[0].1.balance, 10_000);
    assert_eq!(site.participants[1].1.balance, 30_000);
    assert!(site.current_session.is_none());
}

#[test]
fn handle_routes_every_action() {
    let mut site = site_with_owner(1);
    let env = test_env();
    let r = launch_site::actions::handle(&mut site, 2, env, Action::RegisterParticipant("alice".to_owned()));
    assert!(matches!(r, Ok(Event::NewParticipant { id: 2, .. })));
    let r = launch_site::actions::handle(&mut site, 2, env, Action::ChangeParticipantName("alicia".to_owned()));
    assert!(matches!(r, Ok(Event::ParticipantNameChange { id: 2, .. })));
    let r = launch_site::actions::handle(&mut site, 1, env, Action::StartNewSession);
    assert!(matches!(r, Ok(Event::NewLaunch { .. })));
    let r = launch_site::actions::handle(&mut site, 2, env, Action::RegisterOnLaunch { fuel_amount: 300, payload_amount: 100 });
    assert!(matches!(r, Ok(Event::LaunchRegistration { participant: 2, .. })));
    let r = launch_site::actions::handle(&mut site, 5, env, Action::Info);
    assert!(matches!(r, Ok(Event::Info { has_current_session: true, .. })));
    let r = launch_site::actions::handle(&mut site, 9, env, Action::ExecuteSession);
    match r {
        Ok(Event::LaunchFinished { stats, .. }) => {
            assert_eq!(stats, vec![(2, true, 120_000, 10_000)]);
        },
        _ => panic!("settlement should succeed"),
    }
}
