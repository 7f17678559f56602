use extra_innings::game::{FinalScore, GameState, HalfInning, Team};

fn state(half_inning: HalfInning, inning: u8, home: u64, away: u64) -> GameState {
    GameState { half_inning, inning, home_team_runs: home, away_team_runs: away }
}

#[test]
fn top_half_credits_away_team() {
    let mut s = state(HalfInning::Bottom, 3, 2, 1);
    s.step(4);
    assert_eq!(s, state(HalfInning::Top, 4, 2, 5));
}

#[test]
fn bottom_half_credits_home_team() {
    let mut s = state(HalfInning::Top, 3, 2, 1);
    s.step(3);
    assert_eq!(s, state(HalfInning::Bottom, 3, 5, 1));
}

#[test]
fn step_after_game_over_changes_nothing() {
    let mut s = state(HalfInning::Bottom, 12, 4, 3);
    assert!(s.is_over());
    for runs in 0..5u64 {
        s.step(runs);
        assert_eq!(s, state(HalfInning::Bottom, 12, 4, 3));
    }
}

#[test]
fn no_game_over_before_regulation() {
    for inning in 0..9u8 {
        assert!(!state(HalfInning::Top, inning, 10, 0).is_over());
        assert!(!state(HalfInning::Bottom, inning, 0, 10).is_over());
    }
}

#[test]
fn bottom_of_extra_inning_ends_when_unequal() {
    assert!(state(HalfInning::Bottom, 14, 2, 7).is_over());
    assert!(!state(HalfInning::Bottom, 14, 7, 7).is_over());
}

#[test]
fn scoreless_steps_alternate_halves() {
    let mut s = GameState::default();
    for n in 1..=40u64 {
        s.step(0);
        assert_eq!(s.inning as u64, (n + 1) / 2);
        let expected = if n % 2 == 1 { HalfInning::Top } else { HalfInning::Bottom };
        assert_eq!(s.half_inning, expected);
    }
}

#[test]
fn can_step_refuses_inning_past_255() {
    assert!(!state(HalfInning::Bottom, 255, 0, 0).can_step(0));
    assert!(state(HalfInning::Top, 255, 0, 0).can_step(0));
    assert!(!state(HalfInning::Top, 5, u64::MAX, 0).can_step(1));
    assert!(state(HalfInning::Bottom, 12, 1, 0).can_step(u64::MAX));
}

#[test]
fn flip_switches_half() {
    let mut h = HalfInning::Top;
    h.flip();
    assert_eq!(h, HalfInning::Bottom);
    h.flip();
    assert_eq!(h, HalfInning::Top);
    assert_eq!(HalfInning::default(), HalfInning::Bottom);
}

#[test]
fn winner_is_team_with_more_runs() {
    assert_eq!(FinalScore { home_team: 3, away_team: 2, inning: 9 }.winner(), Team::Home);
    assert_eq!(FinalScore { home_team: 1, away_team: 6, inning: 11 }.winner(), Team::Away);
}
