//! Safety rules for proxy consensus.
//!
//! The proxy safety rules keep their own voting state, separate from that of
//! primary consensus, and decide what a proxy may vote, order-vote and
//! propose. The statements they approve (a vote's ledger info, an order
//! vote's ledger info, a proposal's block data) are signed by the holder of
//! the consensus key, outside this library.
use crate::hashing::vote_data_hash;
use crate::proxy_error::ProxyConsensusError;
use crate::text::{decimal, push_decimal};
use crate::types::{
    Author, BlockData, BlockInfo, BlockView, EpochState, HashValue, LedgerInfo, OrderVote,
    OrderVoteProposal, QuorumCert, Round, SafetyData, TwoChainTimeoutCertificate, Vote, VoteData,
    VoteProposal, spec_author,
};
use vstd::prelude::*;
use vstd::string::StringExecFns;

verus! {

/// The safety data after observing a quorum certificate: the one-chain round
/// rises to the certified round and the preferred round to its parent's round.
pub open spec fn observe_qc_spec(qc: QuorumCert, sd: SafetyData) -> SafetyData {
    let one_chain = qc.vote_data.proposed.round;
    let two_chain = qc.vote_data.parent.round;
    SafetyData {
        one_chain_round: if one_chain > sd.one_chain_round {
            one_chain
        } else {
            sd.one_chain_round
        },
        preferred_round: if two_chain > sd.preferred_round {
            two_chain
        } else {
            sd.preferred_round
        },
        ..sd
    }
}

/// The round of an optional timeout certificate (zero when there is none).
pub open spec fn tc_round_of(tc: Option<TwoChainTimeoutCertificate>) -> Round {
    match tc {
        Some(t) => t.round,
        None => 0,
    }
}

/// The highest certified round of an optional timeout certificate (zero when there is none).
pub open spec fn hqc_round_of(tc: Option<TwoChainTimeoutCertificate>) -> Round {
    match tc {
        Some(t) => t.highest_hqc_round,
        None => 0,
    }
}

/// The two-chain voting rule: a block may be voted if it directly follows its
/// parent's certificate, or if it directly follows the timeout certificate and
/// its parent's certificate is at least as high as the highest one the timeout
/// certificate saw.
pub open spec fn safe_to_vote_spec(
    round: Round,
    qc_round: Round,
    tc: Option<TwoChainTimeoutCertificate>,
) -> bool {
    ||| round == qc_round + 1
    ||| (round == tc_round_of(tc) + 1 && qc_round >= hqc_round_of(tc))
}

/// The ledger info of a vote under the two-chain commit rule: the parent
/// block is committed when the block directly follows it.
pub open spec fn ledger_info_2chain_spec(block: BlockView, consensus_data_hash: HashValue) -> LedgerInfo {
    let certified = block.block_data.quorum_cert.vote_data.proposed;
    LedgerInfo {
        commit_info: if certified.round + 1 == block.round() {
            certified
        } else {
            BlockInfo { epoch: 0, round: 0, id: HashValue { hi: 0, lo: 0 }, timestamp_usecs: 0 }
        },
        consensus_data_hash,
    }
}

/// The vote data of a vote on a block: the block and its certified parent.
pub open spec fn vote_data_of(block: BlockView) -> VoteData {
    VoteData { proposed: block.block_info(), parent: block.block_data.quorum_cert.vote_data.proposed }
}

/// The vote that `author` casts on `block`.
pub open spec fn proxy_vote_spec(author: Author, block: BlockView) -> Vote {
    let vote_data = vote_data_of(block);
    Vote { vote_data, author, ledger_info: ledger_info_2chain_spec(block, vote_data_hash(vote_data)) }
}

/// What the safety rules answer to a vote request, in the order of the checks.
pub enum VoteDecision {
    /// The block is of another epoch.
    EpochMismatch,
    /// The last vote was cast in the block's round: it is given again.
    Cached(Vote),
    /// The block's round is not above the last voted round.
    RoundTooOld,
    /// The two-chain voting rule forbids the vote.
    NotSafe,
    /// A new vote is cast.
    Fresh(Vote),
}

/// The answer to a request that `author`, with safety data `sd`, vote on `block`.
pub open spec fn vote_decision(
    sd: SafetyData,
    author: Author,
    block: BlockView,
    tc: Option<TwoChainTimeoutCertificate>,
) -> VoteDecision {
    if block.epoch() != sd.epoch {
        VoteDecision::EpochMismatch
    } else if sd.last_vote matches Some(v) && v.vote_data.proposed.round == block.round() {
        VoteDecision::Cached(sd.last_vote->0)
    } else if block.round() <= sd.last_voted_round {
        VoteDecision::RoundTooOld
    } else if !safe_to_vote_spec(
        block.round(),
        block.block_data.quorum_cert.vote_data.proposed.round,
        tc,
    ) {
        VoteDecision::NotSafe
    } else {
        VoteDecision::Fresh(proxy_vote_spec(author, block))
    }
}

/// The safety data after casting a fresh vote on `block`.
pub open spec fn after_vote(sd: SafetyData, author: Author, block: BlockView) -> SafetyData {
    let observed = observe_qc_spec(block.block_data.quorum_cert, sd);
    SafetyData {
        last_voted_round: block.round(),
        last_vote: Some(proxy_vote_spec(author, block)),
        ..observed
    }
}

/// What the safety rules answer to an order vote request, in the order of the checks.
pub enum OrderVoteDecision {
    EpochMismatch,
    /// The certificate does not name the block info of the request.
    QcBlockInfoMismatch,
    /// The certificate does not name the requested block.
    QcBlockIdMismatch,
    /// The block is not above the highest timeout round.
    NotSafe,
    /// The order vote is cast.
    Ordered(OrderVote),
}

/// The answer to a request that `author`, with safety data `sd`, order-vote on a block.
pub open spec fn order_vote_decision(
    sd: SafetyData,
    author: Author,
    block: BlockView,
    block_info: BlockInfo,
    qc: QuorumCert,
) -> OrderVoteDecision {
    if block.epoch() != sd.epoch {
        OrderVoteDecision::EpochMismatch
    } else if qc.vote_data.proposed != block_info {
        OrderVoteDecision::QcBlockInfoMismatch
    } else if qc.vote_data.proposed.id != block.id {
        OrderVoteDecision::QcBlockIdMismatch
    } else if block.round() <= sd.highest_timeout_round {
        OrderVoteDecision::NotSafe
    } else {
        OrderVoteDecision::Ordered(
            OrderVote {
                author,
                ledger_info: LedgerInfo {
                    commit_info: block_info,
                    consensus_data_hash: HashValue { hi: 0, lo: 0 },
                },
            },
        )
    }
}

/// The message for a proposal whose round is not above the last voted round.
pub open spec fn round_not_higher_text(round: Round, last_voted_round: Round) -> Seq<char> {
    "Proposed round "@ + decimal(round as nat) + " is not higher than last voted round "@ + decimal(
        last_voted_round as nat,
    )
}

/// Builds the message for a proposal whose round is not above the last voted round.
fn round_not_higher_message(round: Round, last_voted_round: Round) -> (m: String)
    ensures
        m@ == round_not_higher_text(round, last_voted_round),
{
    let mut m = String::new();
    m.append("Proposed round ");
    push_decimal(&mut m, round);
    m.append(" is not higher than last voted round ");
    push_decimal(&mut m, last_voted_round);
    assert(m@ =~= round_not_higher_text(round, last_voted_round));
    m
}

/// Proxy-specific safety rules with their own voting state.
#[derive(Debug)]
pub struct ProxySafetyRules {
    /// The validator whose votes these rules approve.
    author: Author,
    /// The voting state, separate from that of primary consensus.
    safety_data: SafetyData,
    /// The state of the current epoch, once initialized.
    epoch_state: Option<EpochState>,
}

/// The model of [`ProxySafetyRules`].
pub struct ProxySafetyRulesView {
    pub author: Author,
    pub safety_data: SafetyData,
    /// The epoch of the epoch state, once initialized.
    pub epoch_state_epoch: Option<u64>,
}

impl View for ProxySafetyRules {
    type V = ProxySafetyRulesView;

    closed spec fn view(&self) -> ProxySafetyRulesView {
        ProxySafetyRulesView {
            author: self.author,
            safety_data: self.safety_data,
            epoch_state_epoch: match self.epoch_state {
                Some(e) => Some(e.epoch),
                None => None,
            },
        }
    }
}

impl ProxySafetyRules {
    /// The last vote is always of the last voted round.
    #[verifier::type_invariant]
    spec fn last_vote_is_last_voted(self) -> bool {
        last_vote_consistent(self.safety_data)
    }

    /// Safety rules for `author`, with the voting state of epoch zero.
    pub fn new(author: Author) -> (r: Self)
        ensures
            last_vote_consistent(r@.safety_data),
            r@ == (ProxySafetyRulesView {
                author,
                safety_data: SafetyData {
                    epoch: 0,
                    last_voted_round: 0,
                    preferred_round: 0,
                    one_chain_round: 0,
                    last_vote: None,
                    highest_timeout_round: 0,
                },
                epoch_state_epoch: None,
            }),
    {
        ProxySafetyRules {
            author,
            safety_data: SafetyData::new(0, 0, 0, 0, None, 0),
            epoch_state: None,
        }
    }

    /// Initializes the rules for an epoch. A later epoch resets the voting
    /// state; an earlier one is refused; the same one keeps it.
    pub fn initialize(&mut self, epoch_state: EpochState) -> (res: Result<(), ProxyConsensusError>)
        ensures
            last_vote_consistent(final(self)@.safety_data),
            epoch_state.epoch < old(self)@.safety_data.epoch ==> {
                &&& res matches Err(ProxyConsensusError::EpochMismatch { expected, got })
                &&& expected == old(self)@.safety_data.epoch
                &&& got == epoch_state.epoch
                &&& final(self)@ == old(self)@
            },
            epoch_state.epoch >= old(self)@.safety_data.epoch ==> {
                &&& res is Ok
                &&& final(self)@.author == old(self)@.author
                &&& final(self)@.epoch_state_epoch == Some(epoch_state.epoch)
                &&& final(self)@.safety_data == if epoch_state.epoch > old(self)@.safety_data.epoch {
                    SafetyData {
                        epoch: epoch_state.epoch,
                        last_voted_round: 0,
                        preferred_round: 0,
                        one_chain_round: 0,
                        last_vote: None,
                        highest_timeout_round: 0,
                    }
                } else {
                    old(self)@.safety_data
                }
            },
    {
        proof {
            use_type_invariant(&*self);
        }
        let current_epoch = self.safety_data.epoch;
        if epoch_state.epoch > current_epoch {
            self.safety_data = SafetyData::new(epoch_state.epoch, 0, 0, 0, None, 0);
        } else if epoch_state.epoch < current_epoch {
            return Err(
                ProxyConsensusError::EpochMismatch { expected: current_epoch, got: epoch_state.epoch },
            );
        }
        self.epoch_state = Some(epoch_state);
        Ok(())
    }

    /// The validator whose votes these rules approve.
    pub fn author(&self) -> (res: Result<Author, ProxyConsensusError>)
        ensures
            res matches Ok(a) && a == self@.author,
    {
        Ok(self.author)
    }

    /// The current voting state.
    pub fn safety_data(&self) -> (res: Result<SafetyData, ProxyConsensusError>)
        ensures
            res matches Ok(sd) && sd == self@.safety_data,
            last_vote_consistent(self@.safety_data),
    {
        proof {
            use_type_invariant(self);
        }
        Ok(self.safety_data)
    }

    /// The epoch state, once initialized.
    pub fn epoch_state(&self) -> (res: Result<&EpochState, ProxyConsensusError>)
        ensures
            match self@.epoch_state_epoch {
                Some(e) => res matches Ok(s) && s.epoch == e,
                None => res matches Err(ProxyConsensusError::SafetyRulesError(m)) && m@
                    == "Epoch state not initialized"@,
            },
    {
        match &self.epoch_state {
            Some(s) => Ok(s),
            None => Err(
                ProxyConsensusError::SafetyRulesError("Epoch state not initialized".to_string()),
            ),
        }
    }

    /// Raises the one-chain and preferred rounds of `safety_data` to those of `qc`.
    pub fn observe_qc(&self, qc: &QuorumCert, safety_data: &mut SafetyData)
        ensures
            *final(safety_data) == observe_qc_spec(*qc, *old(safety_data)),
    {
        let one_chain = qc.certified_block().round();
        let two_chain = qc.parent_block().round();
        if one_chain > safety_data.one_chain_round {
            safety_data.one_chain_round = one_chain;
        }
        if two_chain > safety_data.preferred_round {
            safety_data.preferred_round = two_chain;
        }
    }

    /// Checks the two-chain voting rule for a block and an optional timeout certificate.
    pub fn safe_to_vote(
        &self,
        block: &crate::types::Block,
        maybe_tc: Option<&TwoChainTimeoutCertificate>,
    ) -> (res: Result<(), ProxyConsensusError>)
        ensures
            res is Ok <==> (block@.round() == block@.block_data.quorum_cert.vote_data.proposed.round + 1
                || (block@.round() == match maybe_tc {
                Some(t) => t.round as int,
                None => 0int,
            } + 1 && block@.block_data.quorum_cert.vote_data.proposed.round >= match maybe_tc {
                Some(t) => t.highest_hqc_round as int,
                None => 0int,
            })),
            safe_to_vote_spec(
                block@.round(),
                block@.block_data.quorum_cert.vote_data.proposed.round,
                match maybe_tc {
                    Some(t) => Some(*t),
                    None => None,
                },
            ) ==> res is Ok,
            !safe_to_vote_spec(
                block@.round(),
                block@.block_data.quorum_cert.vote_data.proposed.round,
                match maybe_tc {
                    Some(t) => Some(*t),
                    None => None,
                },
            ) ==> (res matches Err(
                ProxyConsensusError::NotSafeToVote { round, qc_round, tc_round, hqc_round },
            ) && round == block@.round() && qc_round
                == block@.block_data.quorum_cert.vote_data.proposed.round && tc_round == match maybe_tc {
                Some(t) => t.round,
                None => 0,
            } && hqc_round == match maybe_tc {
                Some(t) => t.highest_hqc_round,
                None => 0,
            }),
    {
        let round = block.round();
        let qc_round = block.quorum_cert().certified_block().round();
        let tc_round = match maybe_tc {
            Some(tc) => tc.round(),
            None => 0,
        };
        let hqc_round = match maybe_tc {
            Some(tc) => tc.highest_hqc_round(),
            None => 0,
        };
        let after_qc = qc_round.checked_add(1);
        let after_tc = tc_round.checked_add(1);
        if after_qc == Some(round) || (after_tc == Some(round) && qc_round >= hqc_round) {
            Ok(())
        } else {
            Err(ProxyConsensusError::NotSafeToVote { round, qc_round, tc_round, hqc_round })
        }
    }

    /// The ledger info of a vote on `proposed_block` under the two-chain commit rule.
    pub fn construct_ledger_info_2chain(
        &self,
        proposed_block: &crate::types::Block,
        consensus_data_hash: HashValue,
    ) -> (res: Result<LedgerInfo, ProxyConsensusError>)
        ensures
            res matches Ok(l) && l == ledger_info_2chain_spec(proposed_block@, consensus_data_hash),
            res matches Ok(l) && l.consensus_data_hash == consensus_data_hash,
            proposed_block@.block_data.quorum_cert.vote_data.proposed.round + 1 == proposed_block@.round()
                ==> (res matches Ok(l) && l.commit_info
                == proposed_block@.block_data.quorum_cert.vote_data.proposed),
    {
        let block1 = proposed_block.round();
        let block0 = proposed_block.quorum_cert().certified_block().round();
        let commit = block0.checked_add(1) == Some(block1);
        let commit_info = if commit {
            proposed_block.quorum_cert().certified_block()
        } else {
            BlockInfo::empty()
        };
        Ok(LedgerInfo::new(commit_info, consensus_data_hash))
    }

    /// Decides a vote on a proxy block.
    ///
    /// The block must be of the current epoch. If the last vote was cast in
    /// the block's round it is returned again; otherwise the block's round
    /// must be above the last voted round and the two-chain voting rule must
    /// hold. A fresh vote records its round, observes the block's parent
    /// certificate and is remembered as the last vote; a refused vote leaves
    /// the state unchanged. The returned vote's ledger info is what the
    /// consensus key signs.
    pub fn construct_and_sign_proxy_vote(
        &mut self,
        vote_proposal: &VoteProposal,
        timeout_cert: Option<&TwoChainTimeoutCertificate>,
    ) -> (res: Result<Vote, ProxyConsensusError>)
        ensures
            last_vote_consistent(final(self)@.safety_data),
            final(self)@.safety_data == safety_step(
                old(self)@.safety_data,
                old(self)@.author,
                SafetyRequest::Vote {
                    block: vote_proposal.block@,
                    tc: match timeout_cert {
                        Some(t) => Some(*t),
                        None => None,
                    },
                },
            ),
            res matches Ok(v) ==> vote_given(
                old(self)@.safety_data,
                old(self)@.author,
                SafetyRequest::Vote {
                    block: vote_proposal.block@,
                    tc: match timeout_cert {
                        Some(t) => Some(*t),
                        None => None,
                    },
                },
            ) == Some(v),
            final(self)@.author == old(self)@.author,
            final(self)@.epoch_state_epoch == old(self)@.epoch_state_epoch,
            match vote_decision(
                old(self)@.safety_data,
                old(self)@.author,
                vote_proposal.block@,
                match timeout_cert {
                    Some(t) => Some(*t),
                    None => None,
                },
            ) {
                VoteDecision::EpochMismatch => res matches Err(
                    ProxyConsensusError::EpochMismatch { expected, got },
                ) && expected == old(self)@.safety_data.epoch && got == vote_proposal.block@.epoch()
                    && final(self)@ == old(self)@,
                VoteDecision::Cached(v) => res == Ok::<Vote, ProxyConsensusError>(v) && final(self)@
                    == old(self)@,
                VoteDecision::RoundTooOld => res matches Err(
                    ProxyConsensusError::RoundTooOld { round, last_voted },
                ) && round == vote_proposal.block@.round() && last_voted
                    == old(self)@.safety_data.last_voted_round && final(self)@ == old(self)@,
                VoteDecision::NotSafe => res matches Err(
                    ProxyConsensusError::NotSafeToVote { round, qc_round, tc_round, hqc_round },
                ) && round == vote_proposal.block@.round() && qc_round
                    == vote_proposal.block@.block_data.quorum_cert.vote_data.proposed.round && tc_round
                    == tc_round_of(
                    match timeout_cert {
                        Some(t) => Some(*t),
                        None => None,
                    },
                ) && hqc_round == hqc_round_of(
                    match timeout_cert {
                        Some(t) => Some(*t),
                        None => None,
                    },
                ) && final(self)@ == old(self)@,
                VoteDecision::Fresh(v) => res == Ok::<Vote, ProxyConsensusError>(v)
                    && final(self)@.safety_data == after_vote(
                    old(self)@.safety_data,
                    old(self)@.author,
                    vote_proposal.block@,
                ),
            },
    {
        proof {
            use_type_invariant(&*self);
        }
        let proposed_block = vote_proposal.block();
        let mut safety_data = self.safety_data;

        if proposed_block.epoch() != safety_data.epoch {
            return Err(
                ProxyConsensusError::EpochMismatch {
                    expected: safety_data.epoch,
                    got: proposed_block.epoch(),
                },
            );
        }
        if let Some(vote) = safety_data.last_vote {
            if vote.vote_data.proposed.round() == proposed_block.round() {
                return Ok(vote);
            }
        }
        let vote_data = VoteData::new(
            proposed_block.gen_block_info(),
            proposed_block.quorum_cert().certified_block(),
        );
        if proposed_block.round() <= safety_data.last_voted_round {
            return Err(
                ProxyConsensusError::RoundTooOld {
                    round: proposed_block.round(),
                    last_voted: safety_data.last_voted_round,
                },
            );
        }
        safety_data.last_voted_round = proposed_block.round();

        match self.safe_to_vote(proposed_block, timeout_cert) {
            Ok(()) => {},
            Err(e) => {
                return Err(e);
            },
        }
        self.observe_qc(proposed_block.quorum_cert(), &mut safety_data);
        let ledger_info = match self.construct_ledger_info_2chain(proposed_block, vote_data.hash()) {
            Ok(l) => l,
            Err(e) => {
                return Err(e);
            },
        };
        let vote = Vote::new(vote_data, self.author, ledger_info);
        safety_data.last_vote = Some(vote);
        self.safety_data = safety_data;
        Ok(vote)
    }

    /// Decides an order vote on a certified proxy block.
    ///
    /// The block must be of the current epoch, and the certificate must name
    /// both the request's block info and the block. The certificate is
    /// observed; the block must be above the highest timeout round. An order
    /// vote keeps the observed certificate; a refusal leaves the state
    /// unchanged. The order vote's ledger info is what the consensus key signs.
    pub fn construct_and_sign_proxy_order_vote(
        &mut self,
        order_vote_proposal: &OrderVoteProposal,
    ) -> (res: Result<OrderVote, ProxyConsensusError>)
        ensures
            last_vote_consistent(final(self)@.safety_data),
            final(self)@.safety_data == safety_step(
                old(self)@.safety_data,
                old(self)@.author,
                SafetyRequest::OrderVote {
                    block: order_vote_proposal.block@,
                    block_info: order_vote_proposal.block_info,
                    qc: order_vote_proposal.quorum_cert,
                },
            ),
            final(self)@.author == old(self)@.author,
            final(self)@.epoch_state_epoch == old(self)@.epoch_state_epoch,
            match order_vote_decision(
                old(self)@.safety_data,
                old(self)@.author,
                order_vote_proposal.block@,
                order_vote_proposal.block_info,
                order_vote_proposal.quorum_cert,
            ) {
                OrderVoteDecision::EpochMismatch => res matches Err(
                    ProxyConsensusError::EpochMismatch { expected, got },
                ) && expected == old(self)@.safety_data.epoch && got
                    == order_vote_proposal.block@.epoch() && final(self)@ == old(self)@,
                OrderVoteDecision::QcBlockInfoMismatch => res matches Err(
                    ProxyConsensusError::InvalidProxyBlock(m),
                ) && m@ == "QC doesn't match block info"@ && final(self)@ == old(self)@,
                OrderVoteDecision::QcBlockIdMismatch => res matches Err(
                    ProxyConsensusError::InvalidProxyBlock(m),
                ) && m@ == "QC block ID doesn't match proposed block"@ && final(self)@ == old(self)@,
                OrderVoteDecision::NotSafe => res matches Err(
                    ProxyConsensusError::NotSafeForOrderVote { round, highest_timeout_round },
                ) && round == order_vote_proposal.block@.round() && highest_timeout_round
                    == old(self)@.safety_data.highest_timeout_round && final(self)@ == old(self)@,
                OrderVoteDecision::Ordered(v) => res == Ok::<OrderVote, ProxyConsensusError>(v)
                    && final(self)@.safety_data == observe_qc_spec(
                    order_vote_proposal.quorum_cert,
                    old(self)@.safety_data,
                ),
            },
    {
        proof {
            use_type_invariant(&*self);
        }
        let proposed_block = &order_vote_proposal.block;
        let mut safety_data = self.safety_data;

        if proposed_block.epoch() != safety_data.epoch {
            return Err(
                ProxyConsensusError::EpochMismatch {
                    expected: safety_data.epoch,
                    got: proposed_block.epoch(),
                },
            );
        }
        let qc = &order_vote_proposal.quorum_cert;
        if qc.certified_block() != order_vote_proposal.block_info {
            return Err(ProxyConsensusError::InvalidProxyBlock("QC doesn't match block info".to_string()));
        }
        if qc.certified_block().id() != proposed_block.id() {
            return Err(
                ProxyConsensusError::InvalidProxyBlock(
                    "QC block ID doesn't match proposed block".to_string(),
                ),
            );
        }
        self.observe_qc(qc, &mut safety_data);
        if proposed_block.round() <= safety_data.highest_timeout_round {
            return Err(
                ProxyConsensusError::NotSafeForOrderVote {
                    round: proposed_block.round(),
                    highest_timeout_round: safety_data.highest_timeout_round,
                },
            );
        }
        let ledger_info = LedgerInfo::new(order_vote_proposal.block_info, HashValue::zero());
        let order_vote = OrderVote::new(self.author, ledger_info);
        self.safety_data = safety_data;
        Ok(order_vote)
    }

    /// Decides whether a proxy proposal may be signed: its author must be this
    /// validator, its epoch the current one and its round above the last voted
    /// round. The voting state is not changed; `Ok` means the block data may
    /// be signed with the consensus key.
    pub fn sign_proxy_proposal(&self, block_data: &BlockData) -> (res: Result<
        (),
        ProxyConsensusError,
    >)
        ensures
            spec_author(block_data@.block_type) != Some(self@.author) ==> (res matches Err(
                ProxyConsensusError::InvalidProxyBlock(m),
            ) && m@ == "Proposal author doesn't match signer"@),
            spec_author(block_data@.block_type) == Some(self@.author) && block_data.epoch
                != self@.safety_data.epoch ==> (res matches Err(
                ProxyConsensusError::EpochMismatch { expected, got },
            ) && expected == self@.safety_data.epoch && got == block_data.epoch),
            spec_author(block_data@.block_type) == Some(self@.author) && block_data.epoch
                == self@.safety_data.epoch && block_data.round <= self@.safety_data.last_voted_round
                ==> (res matches Err(ProxyConsensusError::InvalidProxyBlock(m)) && m@
                == round_not_higher_text(block_data.round, self@.safety_data.last_voted_round)),
            res is Ok <==> (spec_author(block_data@.block_type) == Some(self@.author)
                && block_data.epoch == self@.safety_data.epoch && block_data.round
                > self@.safety_data.last_voted_round),
    {
        if block_data.author() != Some(self.author) {
            return Err(
                ProxyConsensusError::InvalidProxyBlock(
                    "Proposal author doesn't match signer".to_string(),
                ),
            );
        }
        let safety_data = self.safety_data;
        if block_data.epoch() != safety_data.epoch {
            return Err(
                ProxyConsensusError::EpochMismatch {
                    expected: safety_data.epoch,
                    got: block_data.epoch(),
                },
            );
        }
        if block_data.round() <= safety_data.last_voted_round {
            return Err(
                ProxyConsensusError::InvalidProxyBlock(
                    round_not_higher_message(block_data.round(), safety_data.last_voted_round),
                ),
            );
        }
        Ok(())
    }
}

/// The two-chain commit rule: a vote's ledger info commits the block that
/// the voted block's quorum certificate certifies when the voted block's
/// round is one above it, and commits nothing (the empty block info of epoch
/// and round zero) otherwise. The committed block is then the parent that the
/// vote names, one round below the voted block; the ledger info always
/// carries the given consensus data hash.
pub proof fn lemma_two_chain_commit_rule(author: Author, block: BlockView, h: HashValue)
    ensures
        ({
            let certified = block.block_data.quorum_cert.vote_data.proposed;
            let li = ledger_info_2chain_spec(block, h);
            &&& li.consensus_data_hash == h
            &&& certified.round + 1 == block.round() ==> li.commit_info == certified
            &&& certified.round + 1 != block.round() ==> li.commit_info.round == 0 && li.commit_info.epoch
                == 0 && li.commit_info.id == (HashValue { hi: 0, lo: 0 })
                && li.commit_info.timestamp_usecs == 0
            &&& certified.round + 1 == block.round() ==> li.commit_info.round + 1 == block.round()
            &&& certified.round + 1 == block.round() ==> proxy_vote_spec(
                author,
                block,
            ).ledger_info.commit_info == proxy_vote_spec(author, block).vote_data.parent
        }),
{
}

/// The two-chain voting rule: a block is safe to vote exactly when its round
/// is one above the round its quorum certificate certifies, or one above the
/// timeout certificate's round (zero without one) while its certificate is
/// at least as high as the highest one the timeout certificate saw (zero
/// without one). So a block that skips rounds past its certificate is only
/// safe in the round right after the timeout certificate's, and at most two
/// rounds are safe for a given certificate and timeout certificate.
pub proof fn lemma_two_chain_voting_rule(
    round: Round,
    qc_round: Round,
    tc: Option<TwoChainTimeoutCertificate>,
    other_round: Round,
)
    ensures
        ({
            let tcr: int = match tc {
                Some(t) => t.round as int,
                None => 0,
            };
            let hqcr: int = match tc {
                Some(t) => t.highest_hqc_round as int,
                None => 0,
            };
            &&& safe_to_vote_spec(round, qc_round, tc) <==> (round == qc_round + 1 || (round == tcr + 1
                && qc_round >= hqcr))
            &&& round == qc_round + 1 ==> safe_to_vote_spec(round, qc_round, tc)
            &&& safe_to_vote_spec(round, qc_round, tc) && round != qc_round + 1 ==> round == tcr + 1
                && qc_round >= hqcr
            &&& round != qc_round + 1 && round != tcr + 1 ==> !safe_to_vote_spec(round, qc_round, tc)
            &&& qc_round < hqcr && round != qc_round + 1 ==> !safe_to_vote_spec(round, qc_round, tc)
            &&& safe_to_vote_spec(round, qc_round, tc) && safe_to_vote_spec(other_round, qc_round, tc)
                && round != other_round ==> (round == qc_round + 1 || round == tcr + 1) && (other_round
                == qc_round + 1 || other_round == tcr + 1)
        }),
{
}

/// Observing a certificate raises the one-chain round to the certified
/// round and the preferred round to the certified block's parent round,
/// each only if higher: each becomes the larger of its old value and the
/// certificate's round; nothing else changes.
pub proof fn lemma_observe_qc_takes_maxima(qc: QuorumCert, sd: SafetyData)
    ensures
        ({
            let r = observe_qc_spec(qc, sd);
            &&& r.one_chain_round >= sd.one_chain_round
            &&& r.one_chain_round >= qc.vote_data.proposed.round
            &&& (r.one_chain_round == sd.one_chain_round || r.one_chain_round
                == qc.vote_data.proposed.round)
            &&& r.preferred_round >= sd.preferred_round
            &&& r.preferred_round >= qc.vote_data.parent.round
            &&& (r.preferred_round == sd.preferred_round || r.preferred_round == qc.vote_data.parent.round)
            &&& r.epoch == sd.epoch
            &&& r.last_voted_round == sd.last_voted_round
            &&& r.last_vote == sd.last_vote
            &&& r.highest_timeout_round == sd.highest_timeout_round
        }),
{
}

/// A fresh vote on a block: by the voter, on the block's own block info,
/// naming the block certified by the block's quorum certificate as parent,
/// for a block of the current epoch in a round above the last voted round;
/// afterwards the last voted round is the block's round and the last vote is
/// this vote. A request in the last vote's round gets the last vote again.
pub proof fn lemma_vote_content(
    sd: SafetyData,
    author: Author,
    block: BlockView,
    tc: Option<TwoChainTimeoutCertificate>,
)
    ensures
        vote_decision(sd, author, block, tc) matches VoteDecision::Fresh(v) ==> {
            &&& v.author == author
            &&& v.vote_data.proposed.round == block.round()
            &&& v.vote_data.proposed.id == block.id
            &&& v.vote_data.proposed.epoch == block.epoch()
            &&& v.vote_data.parent == block.block_data.quorum_cert.vote_data.proposed
            &&& block.epoch() == sd.epoch
            &&& block.round() > sd.last_voted_round
            &&& after_vote(sd, author, block).last_voted_round == block.round()
            &&& after_vote(sd, author, block).last_vote == Some(v)
        },
        vote_decision(sd, author, block, tc) matches VoteDecision::Cached(v) ==> sd.last_vote == Some(v)
            && v.vote_data.proposed.round == block.round(),
        block.epoch() != sd.epoch ==> vote_decision(sd, author, block, tc) is EpochMismatch,
{
}

/// An order vote is by the voter and orders exactly the block info of the
/// request, which the certificate certifies and which names the block, with
/// a zero consensus data hash; it is only cast for a block of the current
/// epoch above the highest timeout round. A certificate that does not
/// certify the request's block info, or that names another block, is refused.
pub proof fn lemma_order_vote_content(
    sd: SafetyData,
    author: Author,
    block: BlockView,
    block_info: BlockInfo,
    qc: QuorumCert,
)
    ensures
        order_vote_decision(sd, author, block, block_info, qc) matches OrderVoteDecision::Ordered(v) ==> {
            &&& v.author == author
            &&& v.ledger_info.commit_info == block_info
            &&& v.ledger_info.commit_info == qc.vote_data.proposed
            &&& v.ledger_info.commit_info.id == block.id
            &&& v.ledger_info.consensus_data_hash == (HashValue { hi: 0, lo: 0 })
            &&& block.epoch() == sd.epoch
            &&& block.round() > sd.highest_timeout_round
        },
        block.epoch() == sd.epoch && qc.vote_data.proposed != block_info ==> !(order_vote_decision(
            sd,
            author,
            block,
            block_info,
            qc,
        ) is Ordered),
        block.epoch() == sd.epoch && qc.vote_data.proposed.id != block.id ==> !(order_vote_decision(
            sd,
            author,
            block,
            block_info,
            qc,
        ) is Ordered),
        block.epoch() == sd.epoch && qc.vote_data.proposed == block_info && block_info.id == block.id
            && block.round() > sd.highest_timeout_round ==> order_vote_decision(
            sd,
            author,
            block,
            block_info,
            qc,
        ) is Ordered,
{
}

/// A fresh vote is only cast in a round above the last voted round, and that
/// round becomes the last voted round.
pub proof fn lemma_fresh_vote_above_last_voted(
    sd: SafetyData,
    author: Author,
    block: BlockView,
    tc: Option<TwoChainTimeoutCertificate>,
)
    requires
        vote_decision(sd, author, block, tc) is Fresh,
    ensures
        block.round() > sd.last_voted_round,
        after_vote(sd, author, block).last_voted_round == block.round(),
        after_vote(sd, author, block).last_voted_round > sd.last_voted_round,
{
}

/// No two different votes in one round: once a vote is cast on a block, any
/// later request in the same epoch for a block of that round or an earlier
/// one gets no fresh vote, and one for the same round gets the same vote.
pub proof fn lemma_one_vote_per_round(
    sd: SafetyData,
    author: Author,
    first: BlockView,
    first_tc: Option<TwoChainTimeoutCertificate>,
    second: BlockView,
    second_tc: Option<TwoChainTimeoutCertificate>,
)
    requires
        vote_decision(sd, author, first, first_tc) is Fresh,
        second.epoch() == first.epoch(),
        second.round() <= first.round(),
    ensures
        !(vote_decision(after_vote(sd, author, first), author, second, second_tc) is Fresh),
        second.round() == first.round() ==> vote_decision(
            after_vote(sd, author, first),
            author,
            second,
            second_tc,
        ) == VoteDecision::Cached(proxy_vote_spec(author, first)),
{
}

/// Observing certificates never lowers the one-chain or preferred round, and
/// the order in which two certificates are observed does not matter.
pub proof fn lemma_observe_qc_monotone_and_commutative(sd: SafetyData, q1: QuorumCert, q2: QuorumCert)
    ensures
        observe_qc_spec(q1, sd).one_chain_round >= sd.one_chain_round,
        observe_qc_spec(q1, sd).preferred_round >= sd.preferred_round,
        observe_qc_spec(q1, sd).last_voted_round == sd.last_voted_round,
        observe_qc_spec(q2, observe_qc_spec(q1, sd)) == observe_qc_spec(q1, observe_qc_spec(q2, sd)),
{
}

/// An order vote is only cast for a block above the highest timeout round,
/// and it names the block info that the certificate certifies.
pub proof fn lemma_order_vote_above_timeout(
    sd: SafetyData,
    author: Author,
    block: BlockView,
    block_info: BlockInfo,
    qc: QuorumCert,
)
    requires
        order_vote_decision(sd, author, block, block_info, qc) is Ordered,
    ensures
        block.round() > sd.highest_timeout_round,
        qc.vote_data.proposed == block_info,
        block_info.id == block.id,
        (order_vote_decision(sd, author, block, block_info, qc)->Ordered_0).ledger_info.commit_info
            == qc.vote_data.proposed,
{
}

/// A request that changes or reads the voting state: a vote request on a
/// block (with an optional timeout certificate), or an order vote request.
pub enum SafetyRequest {
    Vote { block: BlockView, tc: Option<TwoChainTimeoutCertificate> },
    OrderVote { block: BlockView, block_info: BlockInfo, qc: QuorumCert },
}

/// The safety data after answering a request.
pub open spec fn safety_step(sd: SafetyData, author: Author, req: SafetyRequest) -> SafetyData {
    match req {
        SafetyRequest::Vote { block, tc } => match vote_decision(sd, author, block, tc) {
            VoteDecision::Fresh(_) => after_vote(sd, author, block),
            _ => sd,
        },
        SafetyRequest::OrderVote { block, block_info, qc } => match order_vote_decision(
            sd,
            author,
            block,
            block_info,
            qc,
        ) {
            OrderVoteDecision::Ordered(_) => observe_qc_spec(qc, sd),
            _ => sd,
        },
    }
}

/// The vote a request is answered with, if it is answered with a vote.
pub open spec fn vote_given(sd: SafetyData, author: Author, req: SafetyRequest) -> Option<Vote> {
    match req {
        SafetyRequest::Vote { block, tc } => match vote_decision(sd, author, block, tc) {
            VoteDecision::Fresh(v) => Some(v),
            VoteDecision::Cached(v) => Some(v),
            _ => None,
        },
        _ => None,
    }
}

/// The safety data after answering a sequence of requests in order.
pub open spec fn safety_after(sd: SafetyData, author: Author, reqs: Seq<SafetyRequest>) -> SafetyData
    decreases reqs.len(),
{
    if reqs.len() == 0 {
        sd
    } else {
        safety_step(safety_after(sd, author, reqs.drop_last()), author, reqs.last())
    }
}

/// The last vote, if any, is of the last voted round.
pub open spec fn last_vote_consistent(sd: SafetyData) -> bool {
    sd.last_vote matches Some(v) ==> v.vote_data.proposed.round == sd.last_voted_round
}

/// Vote `v` is remembered: its round is at most the last voted round, and
/// if it is that round, `v` is the last vote.
pub open spec fn vote_remembered(sd: SafetyData, v: Vote) -> bool {
    &&& v.vote_data.proposed.round <= sd.last_voted_round
    &&& v.vote_data.proposed.round == sd.last_voted_round ==> sd.last_vote == Some(v)
}

/// A vote given is remembered afterwards, and the last vote stays consistent.
proof fn lemma_given_vote_remembered(sd: SafetyData, author: Author, req: SafetyRequest, v: Vote)
    requires
        last_vote_consistent(sd),
        vote_given(sd, author, req) == Some(v),
    ensures
        last_vote_consistent(safety_step(sd, author, req)),
        vote_remembered(safety_step(sd, author, req), v),
{
}

/// Any request keeps a remembered vote remembered, and the last vote consistent.
proof fn lemma_step_keeps_remembered(sd: SafetyData, author: Author, req: SafetyRequest, v: Vote)
    requires
        last_vote_consistent(sd),
        vote_remembered(sd, v),
    ensures
        last_vote_consistent(safety_step(sd, author, req)),
        vote_remembered(safety_step(sd, author, req), v),
{
}

/// Answering the first `k + 1` requests is answering the first `k`, then request `k`.
proof fn lemma_safety_after_take(sd: SafetyData, author: Author, reqs: Seq<SafetyRequest>, k: int)
    requires
        0 <= k < reqs.len(),
    ensures
        safety_after(sd, author, reqs.take(k + 1)) == safety_step(
            safety_after(sd, author, reqs.take(k)),
            author,
            reqs[k],
        ),
{
    assert(reqs.take(k + 1).drop_last() =~= reqs.take(k));
    assert(reqs.take(k + 1).last() == reqs[k]);
}

/// A vote given at request `i` stays remembered after every later request.
proof fn lemma_vote_stays_remembered(
    sd: SafetyData,
    author: Author,
    reqs: Seq<SafetyRequest>,
    i: int,
    v: Vote,
    k: int,
)
    requires
        last_vote_consistent(sd),
        0 <= i < k <= reqs.len(),
        vote_given(safety_after(sd, author, reqs.take(i)), author, reqs[i]) == Some(v),
    ensures
        last_vote_consistent(safety_after(sd, author, reqs.take(k))),
        vote_remembered(safety_after(sd, author, reqs.take(k)), v),
    decreases k - i,
{
    lemma_consistent_after(sd, author, reqs, k - 1);
    lemma_safety_after_take(sd, author, reqs, k - 1);
    if k == i + 1 {
        lemma_given_vote_remembered(safety_after(sd, author, reqs.take(i)), author, reqs[i], v);
    } else {
        lemma_vote_stays_remembered(sd, author, reqs, i, v, k - 1);
        lemma_step_keeps_remembered(safety_after(sd, author, reqs.take(k - 1)), author, reqs[k - 1], v);
    }
}

/// The last vote stays consistent over any prefix of requests.
proof fn lemma_consistent_after(sd: SafetyData, author: Author, reqs: Seq<SafetyRequest>, k: int)
    requires
        last_vote_consistent(sd),
        0 <= k <= reqs.len(),
    ensures
        last_vote_consistent(safety_after(sd, author, reqs.take(k))),
    decreases k,
{
    if k == 0 {
        assert(reqs.take(0) =~= Seq::<SafetyRequest>::empty());
    } else {
        lemma_consistent_after(sd, author, reqs, k - 1);
        lemma_safety_after_take(sd, author, reqs, k - 1);
        let s = safety_after(sd, author, reqs.take(k - 1));
        match vote_given(s, author, reqs[k - 1]) {
            Some(v) => lemma_given_vote_remembered(s, author, reqs[k - 1], v),
            None => {
                assert(last_vote_consistent(safety_step(s, author, reqs[k - 1])));
            },
        }
    }
}

/// One vote per round, over any sequence of vote and order vote requests in
/// one epoch: two votes given for the same round, at any two requests, are
/// the same vote. It holds from any state whose last vote is of the last
/// voted round: every state of the safety rules is one (their type invariant,
/// which each call states in its `ensures`), and each call of
/// `construct_and_sign_proxy_vote` or `construct_and_sign_proxy_order_vote`
/// moves the safety data by `safety_step` of its request and answers with
/// `vote_given`; `sign_proxy_proposal` and an initialization in the same
/// epoch leave the safety data as it is.
pub proof fn lemma_one_vote_per_round_over_requests(
    sd: SafetyData,
    author: Author,
    reqs: Seq<SafetyRequest>,
    i: int,
    j: int,
    v1: Vote,
    v2: Vote,
)
    requires
        last_vote_consistent(sd),
        0 <= i < j < reqs.len(),
        vote_given(safety_after(sd, author, reqs.take(i)), author, reqs[i]) == Some(v1),
        vote_given(safety_after(sd, author, reqs.take(j)), author, reqs[j]) == Some(v2),
        v1.vote_data.proposed.round == v2.vote_data.proposed.round,
    ensures
        v1 == v2,
{
    lemma_vote_stays_remembered(sd, author, reqs, i, v1, j);
}

/// The states the safety rules start from have their last vote of the last
/// voted round, and every request keeps it so.
pub proof fn lemma_last_vote_consistent(epoch: u64, sd: SafetyData, author: Author, req: SafetyRequest)
    ensures
        last_vote_consistent(SafetyData {
            epoch,
            last_voted_round: 0,
            preferred_round: 0,
            one_chain_round: 0,
            last_vote: None,
            highest_timeout_round: 0,
        }),
        last_vote_consistent(sd) ==> last_vote_consistent(safety_step(sd, author, req)),
{
    if last_vote_consistent(sd) {
        match vote_given(sd, author, req) {
            Some(v) => lemma_given_vote_remembered(sd, author, req, v),
            None => {},
        }
    }
}

} // verus!
