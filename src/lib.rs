//! A cycle-steppable instruction executor: a processor core whose every
//! memory access costs a fixed number of clock cycles, and which suspends
//! after each single cycle and resumes exactly where it stopped.
//!
//! - `memory`: the clocked memory unit, a flat 64 KiB byte store.
//! - `state`: the execution state, including the explicit resume point.
//! - `engine`: the cycle-stepped engine and its whole-instruction semantics.
//! - `laws`: proved relations between stepping and whole-instruction execution.
pub mod engine;
pub mod laws;
pub mod memory;
pub mod state;
