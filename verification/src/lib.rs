//! Core of a cycle-accurate simulator for the MiMA, a pedagogical minimal
//! 32-bit machine with a fetch/execute microcycle pipeline.

// Basic types (machine words, instructions, ...) that are used everywhere:
pub mod types;
pub mod assembly;
pub mod unit;
pub mod mima;
pub mod record;
pub mod bus;
pub mod microcycle;
