//! Rules engine for a two-player, turn-based board game played for a
//! monetary stake: two participants each deposit an equal buy-in, alternate
//! placing marks on a 3x3 grid, and the accumulated stake is settled to the
//! winner (or split on a draw) the instant the outcome is determined.
//!
//! The library is the authoritative state machine: seat assignment, turn
//! enforcement, move validation, win and draw detection, and payout
//! computation. It works on plain values; the hosting ledger (caller
//! identity, value transfer, persistence) lives outside and hands values in.

pub mod board;
pub mod detector;
pub mod game;
pub mod laws;
