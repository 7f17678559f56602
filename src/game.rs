use vstd::prelude::*;

verus! {

/// Number of innings in a regulation game.
pub const NUM_INNINGS_DEFAULT: u8 = 9;

/// Which team is batting: the away team in the top half, the home team in the bottom half.
#[derive(Debug, Clone, Copy, PartialEq, Eq, Structural)]
pub enum HalfInning {
    Top,
    Bottom,
}

impl HalfInning {
    pub open spec fn flipped(self) -> HalfInning {
        match self {
            HalfInning::Top => HalfInning::Bottom,
            HalfInning::Bottom => HalfInning::Top,
        }
    }

    /// Switches to the other half of the inning.
    pub fn flip(&mut self)
        ensures
            *final(self) == old(self).flipped(),
    {
        *self = match self {
            HalfInning::Top => HalfInning::Bottom,
            HalfInning::Bottom => HalfInning::Top,
        };
    }
}

impl Default for HalfInning {
    /// A game that has not started yet sits at the bottom of inning zero.
    fn default() -> (r: Self)
        ensures
            r == HalfInning::Bottom,
    {
        HalfInning::Bottom
    }
}

/// The team that won a game.
#[derive(Debug, Clone, Copy, PartialEq, Eq, Structural)]
pub enum Team {
    Home,
    Away,
}

/// Score, inning and half-inning of a game in progress.
#[derive(Debug, Clone, Copy, PartialEq, Eq, Structural)]
pub struct GameState {
    pub home_team_runs: u64,
    pub away_team_runs: u64,
    pub inning: u8,
    pub half_inning: HalfInning,
}

impl Default for GameState {
    /// A fresh game: no runs, bottom of inning zero, so that the first step opens inning one.
    fn default() -> (r: Self)
        ensures
            r == GameState::fresh(),
    {
        GameState {
            home_team_runs: 0,
            away_team_runs: 0,
            inning: 0,
            half_inning: HalfInning::Bottom,
        }
    }
}

impl GameState {
    pub open spec fn fresh() -> GameState {
        GameState { home_team_runs: 0, away_team_runs: 0, inning: 0, half_inning: HalfInning::Bottom }
    }

    /// The game is over when the home team leads once the away team has batted in the
    /// regulation inning, or when the scores are unequal once the home team has batted in
    /// an inning at or past regulation.
    pub open spec fn game_over(self) -> bool {
        (self.inning == NUM_INNINGS_DEFAULT && self.half_inning == HalfInning::Top
            && self.home_team_runs > self.away_team_runs) || (self.inning >= NUM_INNINGS_DEFAULT
            && self.half_inning == HalfInning::Bottom && self.home_team_runs
            != self.away_team_runs)
    }

    /// Whether one more half-inning with `runs` runs fits the counters: the next top half
    /// must not open an inning past 255, and the batting team's total must not overflow.
    pub open spec fn step_fits(self, runs: u64) -> bool {
        match self.half_inning {
            HalfInning::Bottom => self.inning < 255 && self.away_team_runs + runs <= u64::MAX,
            HalfInning::Top => self.home_team_runs + runs <= u64::MAX,
        }
    }

    /// The state after one more half-inning in which the batting team scored `runs`.
    pub open spec fn stepped(self, runs: u64) -> GameState {
        if self.game_over() {
            self
        } else {
            match self.half_inning {
                HalfInning::Bottom => GameState {
                    away_team_runs: (self.away_team_runs + runs) as u64,
                    inning: (self.inning + 1) as u8,
                    half_inning: HalfInning::Top,
                    ..self
                },
                HalfInning::Top => GameState {
                    home_team_runs: (self.home_team_runs + runs) as u64,
                    half_inning: HalfInning::Bottom,
                    ..self
                },
            }
        }
    }

    /// The state after one step for each run count of `runs`, in order.
    pub open spec fn played(self, runs: Seq<u64>) -> GameState
        decreases runs.len(),
    {
        if runs.len() == 0 {
            self
        } else {
            self.played(runs.drop_last()).stepped(runs.last())
        }
    }

    /// Whether the game has ended.
    pub fn is_over(&self) -> (r: bool)
        ensures
            r == self.game_over(),
    {
        (self.inning == NUM_INNINGS_DEFAULT && self.half_inning == HalfInning::Top
            && self.home_team_runs > self.away_team_runs) || (self.inning >= NUM_INNINGS_DEFAULT
            && self.half_inning == HalfInning::Bottom && self.home_team_runs
            != self.away_team_runs)
    }

    /// Whether `step(runs)` may be called: the game is over, or the step fits the counters.
    pub fn can_step(&self, runs: u64) -> (r: bool)
        ensures
            r == (self.game_over() || self.step_fits(runs)),
    {
        if self.is_over() {
            return true;
        }
        match self.half_inning {
            HalfInning::Bottom => self.inning < 255 && runs <= u64::MAX - self.away_team_runs,
            HalfInning::Top => runs <= u64::MAX - self.home_team_runs,
        }
    }

    /// Plays one half-inning: does nothing once the game is over; otherwise flips the
    /// half, opens the next inning on a top half, and credits `runs_scored` to the team
    /// now batting.
    pub fn step(&mut self, runs_scored: u64)
        requires
            old(self).game_over() || old(self).step_fits(runs_scored),
        ensures
            *final(self) == old(self).stepped(runs_scored),
    {
        if self.is_over() {
            return;
        }
        self.half_inning.flip();
        if self.half_inning == HalfInning::Top {
            self.inning = self.inning + 1;
        }
        if runs_scored > 0 {
            match self.half_inning {
                HalfInning::Top => self.away_team_runs = self.away_team_runs + runs_scored,
                HalfInning::Bottom => self.home_team_runs = self.home_team_runs + runs_scored,
            }
        }
    }
}

/// The score and length of a finished game.
#[derive(Debug, Clone, Copy, PartialEq, Eq, Structural)]
pub struct FinalScore {
    pub home_team: u64,
    pub away_team: u64,
    pub inning: u8,
}

impl FinalScore {
    /// The team with more runs; a finished game is never tied.
    pub fn winner(&self) -> (r: Team)
        requires
            self.home_team != self.away_team,
        ensures
            r == (if self.home_team > self.away_team { Team::Home } else { Team::Away }),
    {
        if self.home_team > self.away_team {
            Team::Home
        } else {
            Team::Away
        }
    }
}

} // verus!
