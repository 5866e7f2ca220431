//! A small self-seeding pseudo-random generator.
//!
//! Seeding folds ambient signals (clock, addresses, process and thread
//! identity, environment) into a 128-bit state; each draw advances that state
//! with a multiply-add step, folds in a 16-byte secret, mixes in the clock and
//! scrambles the result into a 64-bit output.
pub mod ambient;
pub mod bits;
pub mod cli;
pub mod entropy;
pub mod generator;

pub use cli::clamp_count;
pub use entropy::{secret_byte, seed_from_signals, AmbientSignals};
pub use generator::{advance_state, avalanche, fit_to_range, mix_output, NahodaGenerator};
