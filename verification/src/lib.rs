//! An on-ledger atomic-swap escrow library.
//!
//! Two parties exchange tokens of different kinds through a program-controlled
//! custody slot. Party A deposits a token and declares the amount it expects in
//! return; a counterparty settles the trade by paying exactly that amount, or,
//! after a time lock expires, party A reclaims its deposit.
//!
//! The processor here is a verified state machine over plain account values:
//! it validates every precondition, computes the record update, and returns the
//! Token Ledger calls to perform. Atomicity of those calls is delegated to the
//! hosting execution environment.

pub mod account;
pub mod authority;
pub mod error;
pub mod instruction;
pub mod key;
pub mod processor;
pub mod state;
pub mod token;
