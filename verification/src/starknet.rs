//! The Starknet node as the indexer sees it.

pub mod client;
