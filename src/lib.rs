//! Adjudication core of a two-player, stake-based commit-reveal game of
//! bonk, paper and scissors.

pub mod choice;
pub mod commitment;
pub mod error;
pub mod game;
pub mod settings;
pub mod escrow;
pub mod settlement;
pub mod instructions;
pub mod receipt;
