//! A small round-based game engine: a number-guessing game and a
//! rock-paper-scissors game, built from a random source, an input parser,
//! round evaluators and per-session state machines.

pub mod guessing;
pub mod random;
pub mod rps;
pub mod text;
