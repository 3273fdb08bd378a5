//! A two-player tic-tac-toe state machine and a small poll ledger, with
//! contracts proved by Verus.
pub mod game;
pub mod instructions;
pub mod laws;
pub mod voting;
