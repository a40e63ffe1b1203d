//! Core of a block indexer for a Starknet node.
//!
//! The crate holds everything the indexer decides or computes and performs no
//! I/O itself. A driver sends what [`starknet::client`] writes and hands it
//! what came back; it does what the loop in [`indexer`] asks for and reports
//! the outcome.
//!
//! - [`starknet::client`]: the bodies of the three JSON-RPC requests and the
//!   reading of the replies.
//! - [`indexer`]: the indexing loop as a state machine, with what is proved
//!   of its runs.
//! - [`backoff`]: the retry schedule.
//! - [`checkpoint`]: the checkpoint as the store keeps it.
//! - [`events`]: the events of one block and their stream payload.
//! - [`config`], [`error`]: the configuration and the kinds of failure.
//! - [`decimal`], [`json`]: numerals, and the calls into `serde_json`.

pub mod backoff;
pub mod checkpoint;
pub mod config;
pub mod decimal;
pub mod error;
pub mod events;
pub mod indexer;
pub mod json;
pub mod starknet;
