//! A verified core for a 5x5 LED-matrix Game of Life toy: the bounded
//! cellular-automaton rule, board randomization and inversion, and the
//! per-frame button/timeout state machine that drives them.

pub mod control;
pub mod grid;
pub mod rng;
