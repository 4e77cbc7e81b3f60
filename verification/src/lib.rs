//! An account-based ledger for value transfers denominated in Wei.
//!
//! A [`network::EthereumNetwork`] owns a set of accounts keyed by address and is the
//! only place where balances change. Every operation carries a contract over the
//! ledger's mathematical model, a finite map from address to balance.

pub mod account;
pub mod address;
pub mod error;
pub mod ledger;
pub mod network;
