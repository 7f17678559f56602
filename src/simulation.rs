use vstd::prelude::*;
use crate::driver::{
    possible_failure, possible_outcome, simulate_game, start_state, valid_percents, SimError,
};
use crate::game::{FinalScore, NUM_INNINGS_DEFAULT};
use crate::tally::InningCounts;

verus! {

/// What a run of the simulation is asked to do.
#[derive(Debug, Clone, Copy, PartialEq, Eq, Structural)]
pub struct SimulationConfig {
    /// How many games to play.
    pub num_games: usize,
    /// Chance, in percent, of each further run in an inning up to regulation.
    pub regular_score_percent: u8,
    /// Chance, in percent, of each further run in an inning past regulation.
    pub extra_innings_score_percent: u8,
    /// Start every game tied at the regulation inning.
    pub skip_first_nine_innings: bool,
    /// Play the games one after another instead of on a worker pool; the library's own
    /// engine always plays them one after another.
    pub disable_parallel: bool,
}

/// A scoring percentage outside 1..=99.
#[derive(Debug, Clone, Copy, PartialEq, Eq, Structural)]
pub enum ConfigError {
    RegularScorePercent,
    ExtraInningsScorePercent,
}

impl ConfigError {
    /// The process exit code for this error.
    pub fn exit_code(&self) -> (r: u8)
        ensures
            r == (match self {
                ConfigError::RegularScorePercent => 1u8,
                ConfigError::ExtraInningsScorePercent => 2u8,
            }),
    {
        match self {
            ConfigError::RegularScorePercent => 1,
            ConfigError::ExtraInningsScorePercent => 2,
        }
    }

    /// The message shown for this error.
    pub fn message(&self) -> (r: &'static str)
        ensures
            r@ == (match self {
                ConfigError::RegularScorePercent => "--regular-score-percent must be between 1 and 99 (inclusive)"@,
                ConfigError::ExtraInningsScorePercent => "--extra-innings-score-percent must be between 1 and 99 (inclusive)"@,
            }),
    {
        match self {
            ConfigError::RegularScorePercent => "--regular-score-percent must be between 1 and 99 (inclusive)",
            ConfigError::ExtraInningsScorePercent => "--extra-innings-score-percent must be between 1 and 99 (inclusive)",
        }
    }
}

/// Checks each scoring percentage against 1..=99, the regular one first.
pub fn validate_config(config: &SimulationConfig) -> (r: Result<(), ConfigError>)
    ensures
        r is Ok <==> valid_percents(config.regular_score_percent, config.extra_innings_score_percent),
        r == Err::<(), ConfigError>(ConfigError::RegularScorePercent) <==> !(1
            <= config.regular_score_percent <= 99),
        r == Err::<(), ConfigError>(ConfigError::ExtraInningsScorePercent) <==> (1
            <= config.regular_score_percent <= 99 && !(1 <= config.extra_innings_score_percent
            <= 99)),
{
    if config.regular_score_percent < 1 || config.regular_score_percent > 99 {
        return Err(ConfigError::RegularScorePercent);
    }
    if config.extra_innings_score_percent < 1 || config.extra_innings_score_percent > 99 {
        return Err(ConfigError::ExtraInningsScorePercent);
    }
    Ok(())
}

/// The outcome of a run: games played, how many went past regulation, and their lengths.
pub struct SimulationSummary {
    pub total_games: usize,
    pub extra_inning_games: usize,
    pub inning_counts: InningCounts,
}

/// How many of `games` ended after exactly `inning` innings.
pub open spec fn num_ending_at(games: Seq<FinalScore>, inning: int) -> nat
    decreases games.len(),
{
    if games.len() == 0 {
        0
    } else {
        num_ending_at(games.drop_last(), inning) + (if games.last().inning == inning {
            1nat
        } else {
            0
        })
    }
}

/// How many of `games` went past regulation.
pub open spec fn num_extra(games: Seq<FinalScore>) -> nat
    decreases games.len(),
{
    if games.len() == 0 {
        0
    } else {
        num_extra(games.drop_last()) + (if games.last().inning > NUM_INNINGS_DEFAULT {
            1nat
        } else {
            0
        })
    }
}

impl SimulationSummary {
    /// This summary tallies the finished games `games`, played under `config`: one for each
    /// game requested, each a possible outcome from the configured start; the tally holds,
    /// for each length past regulation, the games that ended there, and nothing else.
    pub open spec fn tallies(&self, config: SimulationConfig, games: Seq<FinalScore>) -> bool {
        &&& games.len() == config.num_games
        &&& self.total_games == config.num_games
        &&& forall|i: int|
            0 <= i < games.len() ==> possible_outcome(
                start_state(config.skip_first_nine_innings),
                #[trigger] games[i],
                config.regular_score_percent,
                config.extra_innings_score_percent,
            ) && games[i].inning >= NUM_INNINGS_DEFAULT && (config.skip_first_nine_innings
                ==> games[i].inning > NUM_INNINGS_DEFAULT)
        &&& forall|inning: int|
            #[trigger] self.inning_counts.count(inning) == (if inning > NUM_INNINGS_DEFAULT {
                num_ending_at(games, inning)
            } else {
                0
            })
        &&& self.extra_inning_games == num_extra(games)
        &&& self.extra_inning_games == self.inning_counts.total_spec()
        &&& self.extra_inning_games <= self.total_games
        &&& self.inning_counts.wf()
    }
}

/// Plays `config.num_games` games one after another and tallies the lengths of those
/// that went past regulation. Fails as soon as one game cannot be played to its end.
pub fn simulate_inning_counts(config: &SimulationConfig) -> (r: Result<SimulationSummary, SimError>)
    requires
        valid_percents(config.regular_score_percent, config.extra_innings_score_percent),
    ensures
        r matches Ok(s) ==> exists|games: Seq<FinalScore>| #[trigger] s.tallies(*config, games),
        r matches Ok(s) ==> (config.skip_first_nine_innings ==> s.extra_inning_games
            == config.num_games),
        r matches Err(e) ==> config.num_games > 0 && possible_failure(
            start_state(config.skip_first_nine_innings),
            e,
            config.regular_score_percent,
            config.extra_innings_score_percent,
        ),
        config.num_games == 0 ==> (r matches Ok(s) && s.extra_inning_games == 0 && forall|
            inning: int,
        | #[trigger] s.inning_counts.count(inning) == 0),
        (config.num_games > 0 && config.regular_score_percent == 1
            && config.extra_innings_score_percent == 1) ==> r == Err::<
            SimulationSummary,
            SimError,
        >(SimError::InningOverflow),
{
    let mut counts = InningCounts::new();
    let mut played: usize = 0;
    let mut extra: usize = 0;
    let ghost mut games: Seq<FinalScore> = Seq::empty();
    while played < config.num_games
        invariant
            games.len() == played,
            forall|i: int|
                0 <= i < games.len() ==> possible_outcome(
                    start_state(config.skip_first_nine_innings),
                    #[trigger] games[i],
                    config.regular_score_percent,
                    config.extra_innings_score_percent,
                ) && games[i].inning >= NUM_INNINGS_DEFAULT && (config.skip_first_nine_innings
                    ==> games[i].inning > NUM_INNINGS_DEFAULT),
            forall|inning: int|
                #[trigger] counts.count(inning) == (if inning > NUM_INNINGS_DEFAULT {
                    num_ending_at(games, inning)
                } else {
                    0
                }),
            extra == num_extra(games),
            config.skip_first_nine_innings ==> extra == played,
            valid_percents(config.regular_score_percent, config.extra_innings_score_percent),
            played <= config.num_games,
            counts.wf(),
            extra == counts.total_spec(),
            extra <= played,
            (played > 0 && config.regular_score_percent == 1
                && config.extra_innings_score_percent == 1) ==> false,
        decreases config.num_games - played,
    {
        let score = match simulate_game(
            config.regular_score_percent,
            config.extra_innings_score_percent,
            config.skip_first_nine_innings,
        ) {
            Ok(score) => score,
            Err(e) => return Err(e),
        };
        let ghost before = counts;
        let recorded = counts.record_game(score.inning);
        if recorded {
            extra = extra + 1;
        }
        proof {
            let next = games.push(score);
            assert(next.drop_last() =~= games);
            assert forall|i: int| 0 <= i < next.len() implies possible_outcome(
                start_state(config.skip_first_nine_innings),
                #[trigger] next[i],
                config.regular_score_percent,
                config.extra_innings_score_percent,
            ) && next[i].inning >= NUM_INNINGS_DEFAULT && (config.skip_first_nine_innings
                ==> next[i].inning > NUM_INNINGS_DEFAULT) by {
                if i < games.len() {
                    assert(next[i] == games[i]);
                }
            }
            assert forall|inning: int|
                #[trigger] counts.count(inning) == (if inning > NUM_INNINGS_DEFAULT {
                    num_ending_at(next, inning)
                } else {
                    0
                }) by {
                assert(counts.count(inning) == before.count(inning) + (if recorded && inning
                    == score.inning { 1int } else { 0 }));
            }
            games = next;
        }
        played = played + 1;
    }
    let summary = SimulationSummary {
        total_games: played,
        extra_inning_games: extra,
        inning_counts: counts,
    };
    assert(summary.tallies(*config, games));
    let r = Ok(summary);
    assert(r matches Ok(t) ==> t.tallies(*config, games));
    r
}

} // verus!
