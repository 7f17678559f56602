use vstd::prelude::*;
use crate::game::{GameState, NUM_INNINGS_DEFAULT};

verus! {

/// Runs that a half-inning yields from a sequence of percentile draws: one run for each
/// draw below `percent`, up to the first draw that is not.
pub open spec fn runs_from_draws(draws: Seq<u8>, percent: u8) -> nat
    decreases draws.len(),
{
    if draws.len() == 0 || draws[0] >= percent {
        0
    } else {
        1 + runs_from_draws(draws.drop_first(), percent)
    }
}

/// Every draw lies in 1..=100.
pub open spec fn valid_draws(draws: Seq<u8>) -> bool {
    forall|i: int| 0 <= i < draws.len() ==> 1 <= #[trigger] draws[i] <= 100
}

/// On the same draws, a higher percentage never yields fewer runs.
pub proof fn lemma_runs_monotonic(draws: Seq<u8>, low: u8, high: u8)
    requires
        low <= high,
    ensures
        runs_from_draws(draws, low) <= runs_from_draws(draws, high),
    decreases draws.len(),
{
    if draws.len() > 0 {
        lemma_runs_monotonic(draws.drop_first(), low, high);
    }
}

/// With a percentage of 1 no draw scores: every half-inning yields no runs.
pub proof fn lemma_lowest_percent_scores_nothing(draws: Seq<u8>)
    requires
        valid_draws(draws),
    ensures
        runs_from_draws(draws, 1) == 0,
{
    if draws.len() > 0 {
        assert(1 <= draws[0]);
    }
}

proof fn lemma_runs_all_below(draws: Seq<u8>, percent: u8)
    requires
        forall|i: int| 0 <= i < draws.len() ==> #[trigger] draws[i] < percent,
    ensures
        runs_from_draws(draws, percent) == draws.len(),
    decreases draws.len(),
{
    if draws.len() > 0 {
        lemma_runs_all_below(draws.drop_first(), percent);
    }
}

proof fn lemma_runs_stop(draws: Seq<u8>, last: u8, percent: u8)
    requires
        forall|i: int| 0 <= i < draws.len() ==> #[trigger] draws[i] < percent,
        last >= percent,
    ensures
        runs_from_draws(draws.push(last), percent) == draws.len(),
    decreases draws.len(),
{
    if draws.len() > 0 {
        assert(draws.push(last).drop_first() =~= draws.drop_first().push(last));
        lemma_runs_stop(draws.drop_first(), last, percent);
    } else {
        assert(draws.push(last)[0] == last);
    }
}

/// Relies on rand's `thread_rng` and `Rng::gen_range`: a draw from the inclusive range
/// 1..=100, taken from a generator local to the calling thread.
#[verifier::external_body]
fn draw_percentile() -> (r: u8)
    ensures
        1 <= r <= 100,
{
    rand::Rng::gen_range(&mut rand::thread_rng(), 1..=100u8)
}

/// The scoring percentage for the half-inning that follows `state`: the extra-innings one
/// once the inning is past regulation, the regular one before.
pub open spec fn percent_for(state: GameState, regular: u8, extra: u8) -> u8 {
    if state.inning > NUM_INNINGS_DEFAULT {
        extra
    } else {
        regular
    }
}

/// `runs` is what some sequence of draws in 1..=100 yields at `percent`.
pub open spec fn possible_runs(runs: u64, percent: u8) -> bool {
    exists|draws: Seq<u8>| valid_draws(draws) && runs == runs_from_draws(draws, percent)
}

/// At a percentage of 1 the only possible run count is zero.
pub proof fn lemma_possible_runs_at_lowest_percent(runs: u64)
    requires
        possible_runs(runs, 1),
    ensures
        runs == 0,
{
    let draws = choose|draws: Seq<u8>| valid_draws(draws) && runs == runs_from_draws(draws, 1);
    lemma_lowest_percent_scores_nothing(draws);
}

/// The scoring percentage for the half-inning that follows `state`.
pub fn score_percent(state: &GameState, regular_score_percent: u8, extra_innings_score_percent: u8) -> (r: u8)
    ensures
        r == percent_for(*state, regular_score_percent, extra_innings_score_percent),
{
    if state.inning > NUM_INNINGS_DEFAULT {
        extra_innings_score_percent
    } else {
        regular_score_percent
    }
}

/// The runs after one more draw: one more while the draw is below `percent`, none once
/// it is not.
pub fn next_run(runs: u64, draw: u8, percent: u8) -> (r: Option<u64>)
    requires
        runs < u64::MAX,
    ensures
        r == (if draw < percent { Some((runs + 1) as u64) } else { None::<u64> }),
{
    if draw < percent {
        Some(runs + 1)
    } else {
        None
    }
}

/// Runs scored in one half-inning: draws from 1..=100 until one is not below `percent`,
/// and counts the draws that were. The count stops at `u64::MAX`.
pub fn score_half_inning(percent: u8) -> (r: u64)
    requires
        1 <= percent <= 99,
    ensures
        possible_runs(r, percent),
        percent == 1 ==> r == 0,
{
    let mut runs: u64 = 0;
    let ghost mut draws: Seq<u8> = Seq::empty();
    let ghost mut seen: Seq<u8> = Seq::empty();
    loop
        invariant
            runs == draws.len(),
            valid_draws(draws),
            forall|i: int| 0 <= i < draws.len() ==> #[trigger] draws[i] < percent,
        ensures
            valid_draws(seen),
            runs == runs_from_draws(seen, percent),
            percent == 1 ==> runs == 0,
        decreases u64::MAX - runs,
    {
        if runs == u64::MAX {
            proof {
                lemma_runs_all_below(draws, percent);
                seen = draws;
                if percent == 1 && draws.len() > 0 {
                    assert(draws[0] < 1);
                }
            }
            break;
        }
        let draw = draw_percentile();
        match next_run(runs, draw, percent) {
            Some(more) => {
                proof {
                    draws = draws.push(draw);
                }
                runs = more;
            },
            None => {
                proof {
                    lemma_runs_stop(draws, draw, percent);
                    assert(valid_draws(draws.push(draw)));
                    seen = draws.push(draw);
                    if percent == 1 && draws.len() > 0 {
                        assert(draws[0] < 1);
                    }
                }
                break;
            },
        }
    }
    runs
}

} // verus!
