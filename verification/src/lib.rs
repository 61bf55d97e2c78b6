//! Proxy primary consensus.
//!
//! A subset of the validators (the proxies) runs a fast local consensus and
//! forwards ordered proxy blocks to the full validator set (the primaries),
//! which aggregate them into primary blocks.
//!
//! - `types`: the consensus values (hashes, block infos, certificates, blocks, votes).
//! - `hashing`: SHA3-256 based domain-separated hashing of those values.
//! - `proxy_error`: the errors of proxy consensus.
//! - `primary_integration`: aggregation of ordered proxy blocks into primary block content.
//! - `proxy_block_store`: the in-memory store of proxy blocks and certificates.
//! - `proxy_leader_election`: round-robin leader rotation among the proxies.
//! - `proxy_safety_rules`: the voting safety rules of proxy consensus.
//! - `proxy_round_manager`: the event handling of proxy consensus.
//! - `proxy_proposal_generator`: construction of proxy block proposals.
//! - `proxy_primary_test`: the end-to-end test definitions and their metric checks.
//! - `proxy_suites`: the forge suites that run those tests.

pub mod types;
pub mod pair_map;
pub mod hashing;
pub mod proxy_error;
pub mod proxy_messages;
pub mod primary_integration;
pub mod proxy_safety_rules;
pub mod proxy_block_store;
pub mod proxy_leader_election;
pub mod proxy_round_manager;
pub mod proxy_proposal_generator;
pub mod proxy_primary_test;
pub mod proxy_suites;
pub mod text;
