//! Monte Carlo estimate of how many innings a baseball-like game lasts.

/// Score, innings and the rule that ends a game.
pub mod game;
/// How many runs a half-inning yields.
pub mod scoring;
/// Playing one game to its end.
pub mod driver;
/// Counts of games by length past regulation.
pub mod tally;
/// Configuration and the run over many games.
pub mod simulation;
/// Properties of the game rules.
pub mod laws;
