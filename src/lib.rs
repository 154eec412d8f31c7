//! A ledger for a cross-chain token bridge.
//!
//! Deposits of a fungible token are recorded as pending transfers towards an
//! address on an external chain. An executor marks each pending transfer as
//! successful or failed; a failed transfer can be queued again by anyone, or
//! refunded to the account that deposited it.
//!
//! The token contract and the host chain stay outside this crate: the state
//! machine takes what they answered (an allowance, a balance, the outcome of
//! a token call) as plain arguments and says what to record and emit.

pub mod types;
pub mod account;
pub mod ledger;
pub mod bridge;
pub mod laws;
