//! A deterministic, event-driven simulator of a two-chain cross-chain bridge
//! implementing a hash-time-locked (HTLC) atomic-swap protocol, together with
//! a fault-injecting client for exercising the protocol under reproducible
//! adversarial conditions, and the core data types (transactions, blocks,
//! commitments) that the surrounding system exchanges.

pub mod anvil;
pub mod blockchain;
pub mod client;
pub mod counterparty;
pub mod digest;
pub mod initiator;
pub mod movement;
pub mod rng;
pub mod types;
