use vstd::prelude::*;
use crate::game::{FinalScore, GameState, HalfInning, NUM_INNINGS_DEFAULT};
use crate::scoring::{percent_for, possible_runs, score_half_inning, score_percent};

verus! {

/// Why a game could not be played to its end.
#[derive(Debug, Clone, Copy, PartialEq, Eq, Structural)]
pub enum SimError {
    /// The game would have gone on past the 255th inning.
    InningOverflow,
    /// A team's total would have overflowed its counter.
    ScoreOverflow,
}

/// One game: its state and the two scoring percentages it is played with.
pub struct Game {
    pub state: GameState,
    pub regular_score_percent: u8,
    pub extra_innings_score_percent: u8,
}

/// Halves left before the counters run out: the bottom half of inning 255 is the last.
pub open spec fn halves_left(s: GameState) -> int {
    2 * (255 - s.inning) + (if s.half_inning == HalfInning::Top { 1int } else { 0 })
}

pub open spec fn final_score_of(s: GameState) -> FinalScore {
    FinalScore { home_team: s.home_team_runs, away_team: s.away_team_runs, inning: s.inning }
}

/// Where a game starts: fresh, or at the regulation inning with no runs scored.
pub open spec fn start_state(skip_first_nine_innings: bool) -> GameState {
    if skip_first_nine_innings {
        GameState { inning: NUM_INNINGS_DEFAULT, ..GameState::fresh() }
    } else {
        GameState::fresh()
    }
}

/// `runs` is a sequence of half-innings that the game may play from `start`: each step
/// fits the counters, and each run count is one the scoring model can give at the
/// percentage chosen for the state it is played from (none where that percentage is 1).
pub open spec fn valid_play(start: GameState, runs: Seq<u64>, regular: u8, extra: u8) -> bool
    decreases runs.len(),
{
    if runs.len() == 0 {
        true
    } else {
        let before = start.played(runs.drop_last());
        let percent = percent_for(before, regular, extra);
        &&& valid_play(start, runs.drop_last(), regular, extra)
        &&& (before.game_over() || before.step_fits(runs.last()))
        &&& possible_runs(runs.last(), percent)
        &&& (percent == 1 ==> runs.last() == 0)
    }
}

/// `score` is how a game played from `start` may end.
pub open spec fn possible_outcome(start: GameState, score: FinalScore, regular: u8, extra: u8) -> bool {
    exists|runs: Seq<u64>|
        {
            let end = #[trigger] start.played(runs);
            &&& valid_play(start, runs, regular, extra)
            &&& end.game_over()
            &&& final_score_of(end) == score
        }
}

/// The state in which a game that fails with `e` stops: not over, and at the bottom of
/// inning 255 for `InningOverflow`, or with a next half-inning that some run count would
/// not fit for `ScoreOverflow`.
pub open spec fn failure_state(end: GameState, e: SimError) -> bool {
    &&& !end.game_over()
    &&& (e == SimError::InningOverflow ==> end.inning == 255 && end.half_inning
        == HalfInning::Bottom)
    &&& (e == SimError::ScoreOverflow ==> exists|x: u64| !end.step_fits(x))
}

/// A game played from `start` may fail with `e`.
pub open spec fn possible_failure(start: GameState, e: SimError, regular: u8, extra: u8) -> bool {
    exists|runs: Seq<u64>|
        {
            let end = #[trigger] start.played(runs);
            &&& valid_play(start, runs, regular, extra)
            &&& failure_state(end, e)
        }
}

/// Both percentages lie in 1..=99.
pub open spec fn valid_percents(regular: u8, extra: u8) -> bool {
    1 <= regular <= 99 && 1 <= extra <= 99
}

impl Game {
    /// A fresh game played with the given percentages.
    pub fn new(regular_score_percent: u8, extra_innings_score_percent: u8) -> (r: Self)
        ensures
            r.state == GameState::fresh(),
            r.regular_score_percent == regular_score_percent,
            r.extra_innings_score_percent == extra_innings_score_percent,
    {
        Game {
            state: GameState::default(),
            regular_score_percent,
            extra_innings_score_percent,
        }
    }

    /// Plays half-innings until the game is over and returns its final score. Fails
    /// when a further half-inning would not fit the inning or run counters.
    pub fn complete(&mut self) -> (r: Result<FinalScore, SimError>)
        requires
            valid_percents(old(self).regular_score_percent, old(self).extra_innings_score_percent),
        ensures
            final(self).regular_score_percent == old(self).regular_score_percent,
            final(self).extra_innings_score_percent == old(self).extra_innings_score_percent,
            final(self).state.inning >= old(self).state.inning,
            final(self).state.home_team_runs >= old(self).state.home_team_runs,
            final(self).state.away_team_runs >= old(self).state.away_team_runs,
            exists|runs: Seq<u64>|
                final(self).state == old(self).state.played(runs) && valid_play(
                    old(self).state,
                    runs,
                    old(self).regular_score_percent,
                    old(self).extra_innings_score_percent,
                ),
            r is Ok <==> final(self).state.game_over(),
            r is Ok ==> r == Ok::<FinalScore, SimError>(final_score_of(final(self).state)),
            r matches Err(e) ==> failure_state(final(self).state, e),
            old(self).state.game_over() ==> final(self).state == old(self).state,
            (old(self).state.half_inning == HalfInning::Bottom && final(self).state.inning
                == old(self).state.inning) ==> final(self).state == old(self).state,
            (old(self).regular_score_percent == 1 && old(self).extra_innings_score_percent == 1
                && old(self).state.home_team_runs == old(self).state.away_team_runs) ==> r
                == Err::<FinalScore, SimError>(SimError::InningOverflow),
    {
        let ghost start = self.state;
        let ghost history: Seq<u64> = Seq::empty();
        while !self.state.is_over()
            invariant
                valid_percents(self.regular_score_percent, self.extra_innings_score_percent),
                self.regular_score_percent == old(self).regular_score_percent,
                self.extra_innings_score_percent == old(self).extra_innings_score_percent,
                start == old(self).state,
                self.state == start.played(history),
                valid_play(start, history, self.regular_score_percent, self.extra_innings_score_percent),
                (start.half_inning == HalfInning::Bottom && self.state.inning == start.inning)
                    ==> self.state == start,
                self.state.inning >= start.inning,
                self.state.home_team_runs >= start.home_team_runs,
                self.state.away_team_runs >= start.away_team_runs,
                start.game_over() ==> self.state == start,
                (self.regular_score_percent == 1 && self.extra_innings_score_percent == 1
                    && start.home_team_runs == start.away_team_runs) ==> (
                self.state.home_team_runs == self.state.away_team_runs),
            decreases halves_left(self.state),
        {
            let percent = score_percent(
                &self.state,
                self.regular_score_percent,
                self.extra_innings_score_percent,
            );
            let runs = score_half_inning(percent);
            if self.state.half_inning == HalfInning::Bottom && self.state.inning == 255 {
                return Err(SimError::InningOverflow);
            }
            if !self.state.can_step(runs) {
                assert(!self.state.step_fits(runs));
                return Err(SimError::ScoreOverflow);
            }
            self.state.step(runs);
            proof {
                assert(history.push(runs).drop_last() =~= history);
                history = history.push(runs);
            }
        }
        Ok(FinalScore {
            home_team: self.state.home_team_runs,
            away_team: self.state.away_team_runs,
            inning: self.state.inning,
        })
    }
}

/// Plays one game to its end, from the start or, with `skip_first_nine_innings`, from
/// the regulation inning with no runs scored.
pub fn simulate_game(
    regular_score_percent: u8,
    extra_innings_score_percent: u8,
    skip_first_nine_innings: bool,
) -> (r: Result<FinalScore, SimError>)
    requires
        valid_percents(regular_score_percent, extra_innings_score_percent),
    ensures
        r matches Ok(s) ==> s.inning >= NUM_INNINGS_DEFAULT && s.home_team != s.away_team,
        r matches Ok(s) ==> possible_outcome(
            start_state(skip_first_nine_innings),
            s,
            regular_score_percent,
            extra_innings_score_percent,
        ),
        r matches Ok(s) ==> (skip_first_nine_innings ==> s.inning > NUM_INNINGS_DEFAULT),
        r matches Err(e) ==> possible_failure(
            start_state(skip_first_nine_innings),
            e,
            regular_score_percent,
            extra_innings_score_percent,
        ),
        (regular_score_percent == 1 && extra_innings_score_percent == 1) ==> r
            == Err::<FinalScore, SimError>(SimError::InningOverflow),
{
    let mut game = Game::new(regular_score_percent, extra_innings_score_percent);
    if skip_first_nine_innings {
        game.state.inning = NUM_INNINGS_DEFAULT;
    }
    let ghost start = game.state;
    assert(start == start_state(skip_first_nine_innings));
    let r = game.complete();
    proof {
        let runs = choose|runs: Seq<u64>|
            game.state == start.played(runs) && valid_play(
                start,
                runs,
                regular_score_percent,
                extra_innings_score_percent,
            );
        assert(game.state == start.played(runs));
    }
    r
}

} // verus!
