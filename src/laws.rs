use vstd::prelude::*;
use crate::game::{GameState, HalfInning, NUM_INNINGS_DEFAULT};

verus! {

/// In the top half of the regulation inning the game is over exactly when the home
/// team leads.
pub proof fn lemma_over_top_of_regulation(s: GameState)
    requires
        s.half_inning == HalfInning::Top,
        s.inning == NUM_INNINGS_DEFAULT,
    ensures
        s.game_over() <==> s.home_team_runs > s.away_team_runs,
{
}

/// In the bottom half of an inning at or past regulation the game is over exactly when
/// the scores differ.
pub proof fn lemma_over_bottom_past_regulation(s: GameState)
    requires
        s.half_inning == HalfInning::Bottom,
        s.inning >= NUM_INNINGS_DEFAULT,
    ensures
        s.game_over() <==> s.home_team_runs != s.away_team_runs,
{
}

/// No game ends before the regulation inning, whatever the score.
pub proof fn lemma_not_over_before_regulation(s: GameState)
    requires
        s.inning < NUM_INNINGS_DEFAULT,
    ensures
        !s.game_over(),
{
}

/// A step of a game in progress switches the half, and opens a new inning exactly when
/// the new half is a top half.
pub proof fn lemma_step_advances_half(s: GameState, runs: u64)
    requires
        !s.game_over(),
        s.step_fits(runs),
    ensures
        s.stepped(runs).half_inning != s.half_inning,
        s.stepped(runs).inning == s.inning + (if s.stepped(runs).half_inning == HalfInning::Top {
            1int
        } else {
            0
        }),
{
}

/// The state after `n` steps that each credit `runs` runs.
pub open spec fn steps(s: GameState, runs: u64, n: nat) -> GameState
    decreases n,
{
    if n == 0 {
        s
    } else {
        steps(s, runs, (n - 1) as nat).stepped(runs)
    }
}

/// Once the game is over, any number of further steps leaves the state unchanged.
pub proof fn lemma_step_after_over_is_identity(s: GameState, runs: u64, n: nat)
    requires
        s.game_over(),
    ensures
        steps(s, runs, n) == s,
    decreases n,
{
    if n > 0 {
        lemma_step_after_over_is_identity(s, runs, (n - 1) as nat);
    }
}

/// From a fresh game, steps that score nothing open a new inning on every other step:
/// after `n` of them the inning is (n + 1) / 2, in the top half when `n` is odd.
pub proof fn lemma_scoreless_steps_from_fresh(n: nat)
    requires
        n <= 510,
    ensures
        steps(GameState::fresh(), 0, n).inning == (n + 1) / 2,
        steps(GameState::fresh(), 0, n).half_inning == (if n % 2 == 1 {
            HalfInning::Top
        } else {
            HalfInning::Bottom
        }),
        steps(GameState::fresh(), 0, n).home_team_runs == 0,
        steps(GameState::fresh(), 0, n).away_team_runs == 0,
    decreases n,
{
    if n > 0 {
        lemma_scoreless_steps_from_fresh((n - 1) as nat);
    }
}

} // verus!
