//! The launch simulation: a pure, deterministic, fixed-round ascent model.
//!
//! Each session runs a fixed number of rounds. Every round raises the shared
//! altitude by `altitude / TOTAL_ROUNDS` (integer division; the remainder is
//! dropped, deliberately, so results are reproducible). A participant burns
//! `payload / TOTAL_ROUNDS` fuel per round; one whose fuel is below that burn
//! fails in the first round and keeps the altitude it had before, which is 0.
//! The committed fuel is checked against the burn but never decremented, so a
//! participant either fails immediately or rides out every round. Earnings
//! are `payload * payload_value` whether or not the participant survives.

use vstd::prelude::*;
use crate::site::{CurrentSession, SessionStrategy};

verus! {

/// Number of rounds in every launch simulation.
pub const TOTAL_ROUNDS: u32 = 3;

/// The altitude gained by the shared ascent in one round.
pub open spec fn round_increment(altitude: u32) -> int {
    altitude as int / TOTAL_ROUNDS as int
}

/// The fuel a strategy must be able to burn in one round.
pub open spec fn round_fuel_burn(payload: u32) -> int {
    payload as int / TOTAL_ROUNDS as int
}

/// A strategy survives the whole launch exactly when its fuel covers one
/// round's burn: the burn is the same every round and fuel is not consumed.
pub open spec fn survives(s: SessionStrategy) -> bool {
    s.fuel as int >= round_fuel_burn(s.payload)
}

/// The altitude a strategy ends at: the full cumulative ascent when it
/// survives, otherwise 0 (it fails in round one, before any gain).
pub open spec fn final_altitude(altitude: u32, s: SessionStrategy) -> int {
    if survives(s) {
        TOTAL_ROUNDS as int * round_increment(altitude)
    } else {
        0
    }
}

/// What a strategy earns: its payload at the session's payload value,
/// independent of survival.
pub open spec fn strategy_earnings(s: SessionStrategy, payload_value: u32) -> int {
    s.payload as int * payload_value as int
}

/// The simulation's output for the registered strategies `reg`: one
/// `(identity, survived, final altitude, earnings)` entry per strategy, in
/// the same order.
pub open spec fn outcomes_match(
    altitude: u32,
    payload_value: u32,
    reg: Seq<(u64, SessionStrategy)>,
    stats: Seq<(u64, bool, u32, u64)>,
) -> bool {
    &&& stats.len() == reg.len()
    &&& forall|k: int| 0 <= k < reg.len() ==> {
            let o = #[trigger] stats[k];
            &&& o.0 == reg[k].0
            &&& o.1 == survives(reg[k].1)
            &&& o.2 as int == final_altitude(altitude, reg[k].1)
            &&& o.3 as int == strategy_earnings(reg[k].1, payload_value)
        }
}

/// Runs the ascent model over the session's registered strategies and
/// returns the per-participant outcomes, in registration-table order. Never
/// fails, whatever the committed amounts are, zero included.
pub fn simulate(session: &CurrentSession) -> (stats: Vec<(u64, bool, u32, u64)>)
    ensures
        outcomes_match(session.altitude, session.payload_value, session.registered@, stats@),
{
    let n = session.registered.len();
    let increment = session.altitude / TOTAL_ROUNDS;
    proof {
        assert(TOTAL_ROUNDS as int * round_increment(session.altitude) <= session.altitude as int);
    }

    let mut state: Vec<(bool, u32)> = Vec::new();
    let mut k: usize = 0;
    while k < n
        invariant
            k <= n,
            n == session.registered@.len(),
            state@.len() == k,
            forall|j: int| 0 <= j < k ==> #[trigger] state@[j] == (true, 0u32),
        decreases n - k,
    {
        state.push((true, 0));
        k = k + 1;
    }

    let mut current_altitude: u32 = 0;
    let mut round: u32 = 0;
    while round < TOTAL_ROUNDS
        invariant
            round <= TOTAL_ROUNDS,
            n == session.registered@.len(),
            state@.len() == n,
            increment as int == round_increment(session.altitude),
            TOTAL_ROUNDS as int * round_increment(session.altitude) <= session.altitude as int,
            current_altitude as int == round as int * round_increment(session.altitude),
            forall|j: int| 0 <= j < n ==> (#[trigger] state@[j]).0
                == (round == 0 || survives(session.registered@[j].1)),
            forall|j: int| 0 <= j < n ==> (#[trigger] state@[j]).1 as int
                == if round >= 1 && survives(session.registered@[j].1) {
                    round as int * round_increment(session.altitude)
                } else {
                    0
                },
        decreases TOTAL_ROUNDS - round,
    {
        proof {
            let inc = round_increment(session.altitude);
            assert(inc >= 0);
            assert((round as int + 1) * inc == round as int * inc + inc
                && (round as int + 1) * inc <= TOTAL_ROUNDS as int * inc) by (nonlinear_arith)
                requires
                    round as int + 1 <= TOTAL_ROUNDS as int,
                    inc >= 0;
        }
        current_altitude = current_altitude + increment;
        let mut j: usize = 0;
        while j < n
            invariant
                j <= n,
                round < TOTAL_ROUNDS,
                n == session.registered@.len(),
                state@.len() == n,
                increment as int == round_increment(session.altitude),
                current_altitude as int == (round as int + 1) * round_increment(session.altitude),
                forall|q: int| 0 <= q < j ==> (#[trigger] state@[q]).0
                    == survives(session.registered@[q].1),
                forall|q: int| 0 <= q < j ==> (#[trigger] state@[q]).1 as int
                    == if survives(session.registered@[q].1) {
                        (round as int + 1) * round_increment(session.altitude)
                    } else {
                        0
                    },
                forall|q: int| j <= q < n ==> (#[trigger] state@[q]).0
                    == (round == 0 || survives(session.registered@[q].1)),
                forall|q: int| j <= q < n ==> (#[trigger] state@[q]).1 as int
                    == if round >= 1 && survives(session.registered@[q].1) {
                        round as int * round_increment(session.altitude)
                    } else {
                        0
                    },
            decreases n - j,
        {
            let strategy = session.registered[j].1;
            let fuel_burn = strategy.payload / TOTAL_ROUNDS;
            if state[j].0 {
                if strategy.fuel < fuel_burn {
                    let frozen = state[j].1;
                    state[j] = (false, frozen);
                } else {
                    state[j] = (true, current_altitude);
                }
            }
            j = j + 1;
        }
        round = round + 1;
    }

    let mut stats: Vec<(u64, bool, u32, u64)> = Vec::new();
    let mut k: usize = 0;
    while k < n
        invariant
            k <= n,
            n == session.registered@.len(),
            state@.len() == n,
            stats@.len() == k,
            forall|j: int| 0 <= j < n ==> (#[trigger] state@[j]).0
                == survives(session.registered@[j].1),
            forall|j: int| 0 <= j < n ==> (#[trigger] state@[j]).1 as int
                == final_altitude(session.altitude, session.registered@[j].1),
            forall|q: int| 0 <= q < k ==> {
                let o = #[trigger] stats@[q];
                &&& o.0 == session.registered@[q].0
                &&& o.1 == survives(session.registered@[q].1)
                &&& o.2 as int == final_altitude(session.altitude, session.registered@[q].1)
                &&& o.3 as int == strategy_earnings(session.registered@[q].1, session.payload_value)
            },
        decreases n - k,
    {
        let id = session.registered[k].0;
        let strategy = session.registered[k].1;
        proof {
            assert(strategy.payload as int * session.payload_value as int <= u64::MAX as int)
                by (nonlinear_arith)
                requires
                    strategy.payload as int <= u32::MAX as int,
                    session.payload_value as int <= u32::MAX as int;
        }
        let earnings: u64 = (strategy.payload as u64) * (session.payload_value as u64);
        stats.push((id, state[k].0, state[k].1, earnings));
        k = k + 1;
    }
    stats
}

} // verus!
