use extra_innings::driver::{simulate_game, Game, SimError};
use extra_innings::game::{GameState, HalfInning};
use extra_innings::scoring::{next_run, score_half_inning, score_percent};
use extra_innings::simulation::{simulate_inning_counts, validate_config, ConfigError, SimulationConfig};
use extra_innings::tally::InningCounts;

fn config(num_games: usize, regular: u8, extra: u8, skip: bool) -> SimulationConfig {
    SimulationConfig {
        num_games,
        regular_score_percent: regular,
        extra_innings_score_percent: extra,
        skip_first_nine_innings: skip,
        disable_parallel: true,
    }
}

#[test]
fn lowest_percent_never_scores() {
    for _ in 0..1000 {
        assert_eq!(score_half_inning(1), 0);
    }
}

#[test]
fn higher_percent_scores_more_on_average() {
    let low: u64 = (0..2000).map(|_| score_half_inning(10)).sum();
    let high: u64 = (0..2000).map(|_| score_half_inning(90)).sum();
    assert!(high > low);
    assert!(high > 2000);
}

#[test]
fn next_run_counts_draws_below_percent() {
    assert_eq!(next_run(3, 39, 40), Some(4));
    assert_eq!(next_run(3, 40, 40), None);
    assert_eq!(next_run(0, 100, 99), None);
}

#[test]
fn percent_depends_on_inning_past_regulation() {
    let s = GameState { home_team_runs: 0, away_team_runs: 0, inning: 9, half_inning: HalfInning::Bottom };
    assert_eq!(score_percent(&s, 30, 70), 30);
    let s = GameState { inning: 10, ..s };
    assert_eq!(score_percent(&s, 30, 70), 70);
}

#[test]
fn finished_game_is_past_regulation_and_not_tied() {
    for _ in 0..500 {
        let s = simulate_game(40, 40, false).unwrap();
        assert!(s.inning >= 9);
        assert_ne!(s.home_team, s.away_team);
    }
}

#[test]
fn scoreless_game_overflows_innings() {
    assert_eq!(simulate_game(1, 1, false), Err(SimError::InningOverflow));
    assert_eq!(simulate_game(1, 1, true), Err(SimError::InningOverflow));
}

#[test]
fn completing_a_finished_game_returns_its_score() {
    let mut game = Game::new(40, 40);
    game.state = GameState { home_team_runs: 5, away_team_runs: 2, inning: 9, half_inning: HalfInning::Top };
    let s = game.complete().unwrap();
    assert_eq!((s.home_team, s.away_team, s.inning), (5, 2, 9));
}

#[test]
fn skipping_regulation_with_high_scoring_ends_in_tenth() {
    let summary = simulate_inning_counts(&config(400, 99, 99, true)).unwrap();
    assert_eq!(summary.total_games, 400);
    assert_eq!(summary.extra_inning_games, 400);
    assert!(summary.inning_counts.count_of(10) >= 350);
}

#[test]
fn summary_counts_every_game() {
    let summary = simulate_inning_counts(&config(3000, 40, 40, false)).unwrap();
    assert_eq!(summary.total_games, 3000);
    let entries = summary.inning_counts.entries();
    let sum: usize = entries.iter().map(|e| e.1).sum();
    assert_eq!(sum, summary.extra_inning_games);
    assert_eq!(summary.inning_counts.total(), summary.extra_inning_games);
    assert!(entries.iter().all(|e| e.0 > 9 && e.1 > 0));
    assert!(entries.windows(2).all(|w| w[0].0 < w[1].0));
    assert!(summary.extra_inning_games < 3000);
}

#[test]
fn no_games_requested() {
    let summary = simulate_inning_counts(&config(0, 40, 40, false)).unwrap();
    assert_eq!(summary.total_games, 0);
    assert_eq!(summary.extra_inning_games, 0);
    assert!(summary.inning_counts.entries().is_empty());
}

#[test]
fn independent_runs_agree_statistically() {
    let a = simulate_inning_counts(&config(4000, 40, 40, false)).unwrap();
    let b = simulate_inning_counts(&config(4000, 40, 40, false)).unwrap();
    let diff = (a.extra_inning_games as i64 - b.extra_inning_games as i64).abs();
    assert!(diff < 200);
}

#[test]
fn config_errors_name_each_percent() {
    assert_eq!(validate_config(&config(1, 40, 40, false)), Ok(()));
    assert_eq!(validate_config(&config(1, 0, 40, false)), Err(ConfigError::RegularScorePercent));
    assert_eq!(validate_config(&config(1, 100, 0, false)), Err(ConfigError::RegularScorePercent));
    assert_eq!(validate_config(&config(1, 40, 0, false)), Err(ConfigError::ExtraInningsScorePercent));
    assert_eq!(validate_config(&config(1, 40, 100, false)), Err(ConfigError::ExtraInningsScorePercent));
    assert_eq!(ConfigError::RegularScorePercent.exit_code(), 1);
    assert_eq!(ConfigError::ExtraInningsScorePercent.exit_code(), 2);
}

#[test]
fn tally_records_and_merges() {
    let mut a = InningCounts::new();
    assert!(!a.record_game(9));
    assert!(a.record_game(10));
    assert!(a.record_game(10));
    a.update_inning_count(255);
    let mut b = InningCounts::new();
    b.record_game(12);
    b.record_game(10);
    a.merge(&b);
    assert_eq!(a.total(), 5);
    assert_eq!(a.count_of(9), 0);
    assert_eq!(a.count_of(10), 3);
    assert_eq!(a.count_of(12), 1);
    assert_eq!(a.count_of(255), 1);
    assert_eq!(a.entries(), vec![(10, 3), (12, 1), (255, 1)]);
}
