//! A minimal fungible-token ledger: mint metadata and per-owner balances,
//! mutated by three authority-gated operations — create a mint, mint new
//! supply, and transfer supply between accounts.
//!
//! Raw instruction bytes are decoded into a typed operation, the positional
//! account references are validated, the mutation is applied, and the
//! resulting records are re-serialized, all-or-nothing: a failed call leaves
//! every referenced buffer byte-for-byte unchanged (with one documented
//! exception in mint creation, whose rent check runs after the write).

pub mod codec;
pub mod instruction;
pub mod laws;
pub mod processor;
pub mod state;
