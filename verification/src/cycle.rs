//! One polling cycle over the whole fleet: the size of the worker pool and
//! the counters of the cycle report.

use crate::scan::{ScanOutcome, ScanOutcomeView};
use vstd::arithmetic::div_mod::{lemma_add_mod_noop, lemma_mod_sub_multiples_vanish, lemma_small_mod};
use vstd::prelude::*;

verus! {

/// Number of workers that scan endpoints side by side, whatever the size of
/// the fleet.
pub const WORKER_THREADS: usize = 200;

/// The counters reported at the end of a cycle.
#[derive(Debug, Clone, Copy, PartialEq, Eq)]
pub struct CycleSummary {
    /// Endpoints scanned.
    pub scanned: usize,
    /// Endpoints whose player query was answered.
    pub succeeded: usize,
    /// Endpoints whose player query failed.
    pub failed: usize,
    /// Server and player events raised.
    pub events: usize,
    /// Players seen on the endpoints that answered.
    pub players: usize,
}

/// Number of outcomes whose player query was answered.
pub open spec fn fetched_count(outcomes: Seq<ScanOutcomeView>) -> nat
    decreases outcomes.len(),
{
    if outcomes.len() == 0 {
        0
    } else {
        fetched_count(outcomes.drop_last()) + if outcomes.last().roster_fetched {
            1nat
        } else {
            0nat
        }
    }
}

/// Number of events, server and player events together, in all outcomes.
pub open spec fn event_total(outcomes: Seq<ScanOutcomeView>) -> nat
    decreases outcomes.len(),
{
    if outcomes.len() == 0 {
        0
    } else {
        event_total(outcomes.drop_last()) + outcomes.last().server_events.len()
            + outcomes.last().player_events.len()
    }
}

/// Number of players seen in all outcomes.
pub open spec fn player_total(outcomes: Seq<ScanOutcomeView>) -> nat
    decreases outcomes.len(),
{
    if outcomes.len() == 0 {
        0
    } else {
        player_total(outcomes.drop_last()) + outcomes.last().players_seen as nat
    }
}

/// A count as a machine word holds it: counters wrap around past the largest word.
pub open spec fn wrapped(n: nat) -> usize {
    (n % (usize::MAX as nat + 1)) as usize
}

proof fn lemma_wrapped_step(total: nat, step: usize)
    ensures
        wrapped(total + step as nat) == wrapped(total).wrapping_add(step),
{
    let m = usize::MAX as int + 1;
    let low = (total as int) % m;
    lemma_add_mod_noop(total as int, step as int, m);
    lemma_small_mod(step as nat, m as nat);
    if low + step >= m {
        lemma_mod_sub_multiples_vanish(low + step, m);
        lemma_small_mod((low + step - m) as nat, m as nat);
    } else {
        lemma_small_mod((low + step) as nat, m as nat);
    }
}

/// Adds up the counters of a cycle from the outcomes of its scans. The event
/// and player counters wrap around where a sum passes the largest word.
pub fn summarize(outcomes: &Vec<ScanOutcome>) -> (summary: CycleSummary)
    ensures
        summary.scanned == outcomes.len(),
        summary.succeeded == fetched_count(outcomes.deep_view()),
        summary.succeeded + summary.failed == outcomes.len(),
        summary.events == wrapped(event_total(outcomes.deep_view())),
        summary.players == wrapped(player_total(outcomes.deep_view())),
{
    let ghost all = outcomes.deep_view();
    let mut succeeded: usize = 0;
    let mut failed: usize = 0;
    let mut events: usize = 0;
    let mut players: usize = 0;
    let mut i: usize = 0;
    proof {
        assert(all.take(0) =~= Seq::empty());
        lemma_small_mod(0, usize::MAX as nat + 1);
    }
    while i < outcomes.len()
        invariant
            i <= outcomes.len(),
            all == outcomes.deep_view(),
            succeeded == fetched_count(all.take(i as int)),
            succeeded + failed == i,
            events == wrapped(event_total(all.take(i as int))),
            players == wrapped(player_total(all.take(i as int))),
        decreases outcomes.len() - i,
    {
        let outcome = &outcomes[i];
        proof {
            let upto = all.take(i as int + 1);
            let seen = all.take(i as int);
            assert(upto.drop_last() =~= seen);
            assert(upto.last() == outcome@);
            lemma_wrapped_step(event_total(seen), outcome.server_events.len());
            lemma_wrapped_step(
                event_total(seen) + outcome.server_events.len() as nat,
                outcome.player_events.len(),
            );
            lemma_wrapped_step(player_total(seen), outcome.players_seen);
        }
        if outcome.roster_fetched {
            succeeded += 1;
        } else {
            failed += 1;
        }
        events = events.wrapping_add(outcome.server_events.len()).wrapping_add(
            outcome.player_events.len(),
        );
        players = players.wrapping_add(outcome.players_seen);
        i += 1;
    }
    assert(all.take(i as int) =~= all);
    CycleSummary { scanned: outcomes.len(), succeeded, failed, events, players }
}

} // verus!
