//! A verified rules engine for the dice game Pass the Pigs.
//!
//! Players take turns throwing two pig-shaped dice and report each outcome
//! as an event. Points accumulate in a per-turn total until the player either
//! banks them (a "pig out" ends the turn and commits the total to the
//! scoreboard) or busts (a "makin' bacon" ends the turn and forfeits the
//! total). Once any player reaches the target score, every player gets one
//! last turn before the game ends.
//!
//! The crate has three parts:
//! - [`scoring`]: the fixed lookup table from a pair of die faces to points;
//! - [`model`]: the mathematical model of the engine — an abstract state and
//!   a pure transition function that every event is specified against;
//! - [`engine`]: the executable engine, proved to follow the model exactly;
//! - [`laws`]: properties of the rules — what each commit does to the
//!   board, what a full mixed combo scores, how the game starts, ends and
//!   resets — stated over the model and proved for every reachable state.

pub mod engine;
pub mod laws;
pub mod model;
pub mod scoring;
