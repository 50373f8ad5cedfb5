//! Settlement provenance for a regression-test Bitcoin node.
//!
//! The crate holds the decisions of a one-shot run against a node: which
//! wallets to load or create, how long to mine until coinbase rewards
//! mature, what a transfer request looks like, and, at its centre, how the
//! economic roles of a confirmed transaction (sender, receiver, change,
//! fee) are recovered from what the node exposes. Every function carries a
//! contract over a mathematical model of its data.

pub mod accounting;
pub mod amount;
pub mod config;
pub mod error;
pub mod maturation;
pub mod provenance;
pub mod provision;
pub mod report;
pub mod script;
pub mod transfer;
