//! The errors of proxy consensus.
use crate::types::{HashValue, Round};
use vstd::prelude::*;

verus! {

/// Errors that can occur during proxy consensus.
#[derive(Debug)]
#[allow(inconsistent_fields)]
pub enum ProxyConsensusError {
    InvalidPrimaryRound { expected: Round, got: Round },
    PrimaryQCRoundMismatch { expected: Round, got: Round },
    ParentNotFound(HashValue),
    GenesisMismatch { expected: HashValue, got: HashValue },
    NotProxyValidator,
    NotActive,
    ShutdownTriggered { tc_round: Round, primary_round: Round },
    BackpressureExceeded { count: u64, primary_round: Round },
    BlockRetrievalFailed(String),
    BlockNotOrdered(HashValue),
    InvalidProxyBlock(String),
    BrokenChain { round: Round },
    SafetyRules(String),
    Network(String),
    ChannelClosed,
    Internal(String),
    AlreadyProposed { round: Round },
    PayloadPullError(String),
    EpochMismatch { expected: u64, got: u64 },
    SafetyRulesError(String),
    RoundTooOld { round: Round, last_voted: Round },
    NotSafeToVote { round: Round, qc_round: Round, tc_round: Round, hqc_round: Round },
    NotSafeForOrderVote { round: Round, highest_timeout_round: Round },
}

} // verus!
