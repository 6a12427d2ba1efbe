//! An n-of-m multisignature authority: a shared account controlled by a set of
//! owners, which authorizes a batch of instructions once a quorum of owners has
//! approved it.

pub mod key;
pub mod errors;
pub mod multisig;
pub mod transaction;
pub mod account;
pub mod vault;
pub mod instructions;
pub mod create_multisig;
pub mod owners;
pub mod propose_transaction;
pub mod approve_transaction;
pub mod cancel_transaction;
pub mod execute_transaction;
pub mod laws;
