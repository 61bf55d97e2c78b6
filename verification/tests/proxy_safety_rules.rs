use proxy_primary::proxy_error::ProxyConsensusError;
use proxy_primary::proxy_safety_rules::ProxySafetyRules;
use proxy_primary::types::{
    AccountAddress, Block, BlockData, BlockInfo, EpochState, HashValue, LedgerInfo,
    OrderVoteProposal, Payload, QuorumCert, Round, SafetyData, TwoChainTimeoutCertificate,
    ValidatorVerifier, VoteData, VoteProposal,
};

fn id_of(byte: u8) -> HashValue {
    HashValue::new([byte; 32])
}

fn make_qc(epoch: u64, round: Round) -> QuorumCert {
    let block_info = BlockInfo::new(epoch, round, id_of(0x10 + round as u8), round * 10);
    let vote_data = VoteData::new(block_info, block_info);
    let ledger_info = LedgerInfo::new(block_info, HashValue::zero());
    QuorumCert::new(vote_data, ledger_info)
}

fn signer() -> AccountAddress {
    AccountAddress::new([0xaa; 32])
}

/// A proxy block of `epoch` in `round`, whose parent certificate is of `qc_round`.
fn block_at(epoch: u64, round: Round, qc_round: Round, author: AccountAddress) -> Block {
    let data = BlockData::new_from_proxy(
        epoch,
        round,
        round * 10,
        make_qc(epoch, qc_round),
        vec![],
        Payload::empty(),
        author,
        vec![],
        1,
        None,
    );
    Block::new(id_of(0x10 + round as u8), data)
}

fn rules_at_epoch(epoch: u64) -> ProxySafetyRules {
    let mut rules = ProxySafetyRules::new(signer());
    let epoch_state = EpochState { epoch, verifier: ValidatorVerifier::new(vec![]) };
    rules.initialize(epoch_state).unwrap();
    rules
}

#[test]
fn test_proxy_safety_rules_creation() {
    let author = signer();
    let rules = ProxySafetyRules::new(author);
    assert_eq!(rules.author().unwrap(), author);
    assert_eq!(rules.safety_data().unwrap().epoch, 0);
}

#[test]
fn test_proxy_safety_rules_initialization() {
    let author = signer();
    let mut rules = ProxySafetyRules::new(author);
    let epoch_state = EpochState::empty();
    rules.initialize(epoch_state).unwrap();
    assert_eq!(rules.safety_data().unwrap().epoch, 0);
}

#[test]
fn test_observe_qc() {
    let rules = ProxySafetyRules::new(signer());
    let qc = make_qc(1, 5);
    let mut safety_data = SafetyData::new(1, 0, 0, 0, None, 0);
    rules.observe_qc(&qc, &mut safety_data);
    assert_eq!(safety_data.one_chain_round, 5);
}

// ---------------------------------------------------------------------------
// Further cases.
// ---------------------------------------------------------------------------

#[test]
fn epoch_state_is_absent_until_initialized() {
    let mut rules = ProxySafetyRules::new(signer());
    match rules.epoch_state() {
        Err(ProxyConsensusError::SafetyRulesError(m)) => assert_eq!(m, "Epoch state not initialized"),
        other => panic!("unexpected {:?}", other),
    }
    rules
        .initialize(EpochState { epoch: 3, verifier: ValidatorVerifier::new(vec![]) })
        .unwrap();
    assert_eq!(rules.epoch_state().unwrap().epoch, 3);
    assert_eq!(rules.safety_data().unwrap().epoch, 3);
}

#[test]
fn initialize_refuses_an_earlier_epoch() {
    let mut rules = rules_at_epoch(4);
    let earlier = EpochState { epoch: 2, verifier: ValidatorVerifier::new(vec![]) };
    match rules.initialize(earlier) {
        Err(ProxyConsensusError::EpochMismatch { expected, got }) => {
            assert_eq!((expected, got), (4, 2))
        }
        other => panic!("unexpected {:?}", other),
    }
    assert_eq!(rules.safety_data().unwrap().epoch, 4);
}

#[test]
fn initialize_with_a_later_epoch_resets_the_voting_state() {
    let mut rules = rules_at_epoch(1);
    let proposal = VoteProposal { block: block_at(1, 5, 4, signer()) };
    rules.construct_and_sign_proxy_vote(&proposal, None).unwrap();
    assert_eq!(rules.safety_data().unwrap().last_voted_round, 5);
    rules
        .initialize(EpochState { epoch: 1, verifier: ValidatorVerifier::new(vec![]) })
        .unwrap();
    assert_eq!(rules.safety_data().unwrap().last_voted_round, 5);
    rules
        .initialize(EpochState { epoch: 2, verifier: ValidatorVerifier::new(vec![]) })
        .unwrap();
    assert_eq!(rules.safety_data().unwrap(), SafetyData::new(2, 0, 0, 0, None, 0));
}

#[test]
fn observe_qc_never_lowers_rounds() {
    let rules = ProxySafetyRules::new(signer());
    let parent = BlockInfo::new(1, 3, id_of(1), 0);
    let certified = BlockInfo::new(1, 4, id_of(2), 0);
    let qc = QuorumCert::new(VoteData::new(certified, parent), LedgerInfo::new(parent, HashValue::zero()));
    let mut safety_data = SafetyData::new(1, 9, 7, 8, None, 0);
    rules.observe_qc(&qc, &mut safety_data);
    assert_eq!(safety_data, SafetyData::new(1, 9, 7, 8, None, 0));
    let mut low = SafetyData::new(1, 0, 1, 1, None, 0);
    rules.observe_qc(&qc, &mut low);
    assert_eq!((low.one_chain_round, low.preferred_round), (4, 3));
}

#[test]
fn fresh_vote_is_recorded_and_commits_the_parent() {
    let mut rules = rules_at_epoch(1);
    let block = block_at(1, 5, 4, signer());
    let proposal = VoteProposal { block };
    let vote = rules.construct_and_sign_proxy_vote(&proposal, None).unwrap();
    assert_eq!(vote.author, signer());
    assert_eq!(vote.vote_data.proposed, BlockInfo::new(1, 5, id_of(0x15), 50));
    assert_eq!(vote.vote_data.parent, BlockInfo::new(1, 4, id_of(0x14), 40));
    // The parent directly precedes the block: the two-chain rule commits it.
    assert_eq!(vote.ledger_info.commit_info, BlockInfo::new(1, 4, id_of(0x14), 40));
    let expected_hash = HashValue::new([
        0x29, 0xa2, 0x77, 0x66, 0xa4, 0x95, 0x70, 0x60, 0xa3, 0xe7, 0x5f, 0x8f, 0x4c, 0xb9, 0xf0,
        0xd1, 0x32, 0x86, 0x28, 0x0c, 0xe5, 0x48, 0x9a, 0xc9, 0x50, 0x98, 0x1f, 0x1b, 0xab, 0x44,
        0x89, 0x9d,
    ]);
    assert_eq!(vote.ledger_info.consensus_data_hash, expected_hash);
    assert_eq!(vote.vote_data.hash(), expected_hash);
    let sd = rules.safety_data().unwrap();
    assert_eq!(sd.last_voted_round, 5);
    assert_eq!(sd.one_chain_round, 4);
    assert_eq!(sd.preferred_round, 4);
    assert_eq!(sd.last_vote, Some(vote));
}

#[test]
fn a_second_request_in_the_voted_round_gets_the_same_vote() {
    let mut rules = rules_at_epoch(1);
    let first = rules
        .construct_and_sign_proxy_vote(&VoteProposal { block: block_at(1, 5, 4, signer()) }, None)
        .unwrap();
    let other_author = AccountAddress::new([0xbb; 32]);
    let again = rules
        .construct_and_sign_proxy_vote(&VoteProposal { block: block_at(1, 5, 4, other_author) }, None)
        .unwrap();
    assert_eq!(first, again);
}

#[test]
fn vote_in_an_old_round_is_refused() {
    let mut rules = rules_at_epoch(1);
    rules
        .construct_and_sign_proxy_vote(&VoteProposal { block: block_at(1, 5, 4, signer()) }, None)
        .unwrap();
    match rules.construct_and_sign_proxy_vote(&VoteProposal { block: block_at(1, 3, 2, signer()) }, None) {
        Err(ProxyConsensusError::RoundTooOld { round, last_voted }) => {
            assert_eq!((round, last_voted), (3, 5))
        }
        other => panic!("unexpected {:?}", other),
    }
    assert_eq!(rules.safety_data().unwrap().last_voted_round, 5);
}

#[test]
fn vote_of_another_epoch_is_refused() {
    let mut rules = rules_at_epoch(1);
    match rules.construct_and_sign_proxy_vote(&VoteProposal { block: block_at(2, 5, 4, signer()) }, None) {
        Err(ProxyConsensusError::EpochMismatch { expected, got }) => assert_eq!((expected, got), (1, 2)),
        other => panic!("unexpected {:?}", other),
    }
}

#[test]
fn vote_that_skips_rounds_needs_a_timeout_certificate() {
    let mut rules = rules_at_epoch(1);
    let proposal = VoteProposal { block: block_at(1, 8, 4, signer()) };
    match rules.construct_and_sign_proxy_vote(&proposal, None) {
        Err(ProxyConsensusError::NotSafeToVote { round, qc_round, tc_round, hqc_round }) => {
            assert_eq!((round, qc_round, tc_round, hqc_round), (8, 4, 0, 0))
        }
        other => panic!("unexpected {:?}", other),
    }
    assert_eq!(rules.safety_data().unwrap().last_voted_round, 0);
    // A certificate that saw a higher certificate than the block's parent does not help.
    let high_tc = TwoChainTimeoutCertificate::new(1, 7, 5);
    match rules.construct_and_sign_proxy_vote(&proposal, Some(&high_tc)) {
        Err(ProxyConsensusError::NotSafeToVote { round, qc_round, tc_round, hqc_round }) => {
            assert_eq!((round, qc_round, tc_round, hqc_round), (8, 4, 7, 5))
        }
        other => panic!("unexpected {:?}", other),
    }
    let tc = TwoChainTimeoutCertificate::new(1, 7, 4);
    let vote = rules.construct_and_sign_proxy_vote(&proposal, Some(&tc)).unwrap();
    // The parent does not directly precede the block: nothing is committed.
    assert_eq!(vote.ledger_info.commit_info, BlockInfo::empty());
    assert_eq!(rules.safety_data().unwrap().last_voted_round, 8);
}

#[test]
fn safe_to_vote_checks_the_two_chain_rule() {
    let rules = rules_at_epoch(1);
    assert!(rules.safe_to_vote(&block_at(1, 5, 4, signer()), None).is_ok());
    assert!(rules.safe_to_vote(&block_at(1, 6, 4, signer()), None).is_err());
    let tc = TwoChainTimeoutCertificate::new(1, 5, 3);
    assert!(rules.safe_to_vote(&block_at(1, 6, 4, signer()), Some(&tc)).is_ok());
}

#[test]
fn ledger_info_commits_only_a_directly_preceding_parent() {
    let rules = rules_at_epoch(1);
    let h = id_of(0x99);
    let li = rules.construct_ledger_info_2chain(&block_at(1, 5, 4, signer()), h).unwrap();
    assert_eq!(li.commit_info, BlockInfo::new(1, 4, id_of(0x14), 40));
    assert_eq!(li.consensus_data_hash, h);
    let li = rules.construct_ledger_info_2chain(&block_at(1, 6, 4, signer()), h).unwrap();
    assert_eq!(li.commit_info, BlockInfo::empty());
}

fn order_proposal(block: Block, block_info: BlockInfo, qc: QuorumCert) -> OrderVoteProposal {
    OrderVoteProposal { block, block_info, quorum_cert: qc }
}

#[test]
fn order_vote_names_the_certified_block() {
    let mut rules = rules_at_epoch(1);
    let block = block_at(1, 5, 4, signer());
    let info = block.gen_block_info();
    let parent = BlockInfo::new(1, 4, id_of(0x14), 40);
    let qc = QuorumCert::new(VoteData::new(info, parent), LedgerInfo::new(parent, HashValue::zero()));
    let ov = rules.construct_and_sign_proxy_order_vote(&order_proposal(block, info, qc)).unwrap();
    assert_eq!(ov.author, signer());
    assert_eq!(ov.ledger_info, LedgerInfo::new(info, HashValue::zero()));
    let sd = rules.safety_data().unwrap();
    assert_eq!((sd.one_chain_round, sd.preferred_round), (5, 4));
    assert_eq!(sd.last_voted_round, 0);
}

#[test]
fn order_vote_refusals() {
    let mut rules = rules_at_epoch(1);
    let block = block_at(1, 5, 4, signer());
    let info = block.gen_block_info();
    let qc_for = |b: BlockInfo| QuorumCert::new(VoteData::new(b, b), LedgerInfo::new(b, HashValue::zero()));

    let other_info = BlockInfo::new(1, 6, id_of(0x16), 60);
    match rules.construct_and_sign_proxy_order_vote(&order_proposal(block_at(1, 5, 4, signer()), info, qc_for(other_info))) {
        Err(ProxyConsensusError::InvalidProxyBlock(m)) => assert_eq!(m, "QC doesn't match block info"),
        other => panic!("unexpected {:?}", other),
    }
    let foreign = BlockInfo::new(1, 5, id_of(0x77), 50);
    match rules.construct_and_sign_proxy_order_vote(&order_proposal(block_at(1, 5, 4, signer()), foreign, qc_for(foreign))) {
        Err(ProxyConsensusError::InvalidProxyBlock(m)) => {
            assert_eq!(m, "QC block ID doesn't match proposed block")
        }
        other => panic!("unexpected {:?}", other),
    }
    match rules.construct_and_sign_proxy_order_vote(&order_proposal(block_at(3, 5, 4, signer()), info, qc_for(info))) {
        Err(ProxyConsensusError::EpochMismatch { expected, got }) => assert_eq!((expected, got), (1, 3)),
        other => panic!("unexpected {:?}", other),
    }
    // A block of round zero is never above the highest timeout round.
    let genesis_like = block_at(1, 0, 0, signer());
    let g_info = genesis_like.gen_block_info();
    match rules.construct_and_sign_proxy_order_vote(&order_proposal(genesis_like, g_info, qc_for(g_info))) {
        Err(ProxyConsensusError::NotSafeForOrderVote { round, highest_timeout_round }) => {
            assert_eq!((round, highest_timeout_round), (0, 0))
        }
        other => panic!("unexpected {:?}", other),
    }
    assert_eq!(rules.safety_data().unwrap(), SafetyData::new(1, 0, 0, 0, None, 0));
}

#[test]
fn sign_proxy_proposal_checks_author_epoch_and_round() {
    let mut rules = rules_at_epoch(1);
    rules
        .construct_and_sign_proxy_vote(&VoteProposal { block: block_at(1, 5, 4, signer()) }, None)
        .unwrap();
    let data_of = |b: Block| b.block_data().clone();
    assert!(rules.sign_proxy_proposal(&data_of(block_at(1, 6, 5, signer()))).is_ok());
    match rules.sign_proxy_proposal(&data_of(block_at(1, 6, 5, AccountAddress::new([0xbb; 32])))) {
        Err(ProxyConsensusError::InvalidProxyBlock(m)) => {
            assert_eq!(m, "Proposal author doesn't match signer")
        }
        other => panic!("unexpected {:?}", other),
    }
    match rules.sign_proxy_proposal(&data_of(block_at(2, 6, 5, signer()))) {
        Err(ProxyConsensusError::EpochMismatch { expected, got }) => assert_eq!((expected, got), (1, 2)),
        other => panic!("unexpected {:?}", other),
    }
    match rules.sign_proxy_proposal(&data_of(block_at(1, 3, 2, signer()))) {
        Err(ProxyConsensusError::InvalidProxyBlock(m)) => {
            assert_eq!(m, "Proposed round 3 is not higher than last voted round 5")
        }
        other => panic!("unexpected {:?}", other),
    }
    // Approving a proposal changes no voting state.
    assert_eq!(rules.safety_data().unwrap().last_voted_round, 5);
}

#[test]
fn round_message_renders_multi_digit_rounds() {
    let mut rules = rules_at_epoch(1);
    rules
        .construct_and_sign_proxy_vote(&VoteProposal { block: block_at(1, 120, 119, signer()) }, None)
        .unwrap();
    let data = block_at(1, 7, 6, signer()).block_data().clone();
    match rules.sign_proxy_proposal(&data) {
        Err(ProxyConsensusError::InvalidProxyBlock(m)) => {
            assert_eq!(m, "Proposed round 7 is not higher than last voted round 120")
        }
        other => panic!("unexpected {:?}", other),
    }
}

#[test]
fn same_round_gets_the_same_vote_across_other_requests() {
    let mut rules = rules_at_epoch(1);
    let first = rules
        .construct_and_sign_proxy_vote(&VoteProposal { block: block_at(1, 5, 4, signer()) }, None)
        .unwrap();
    // An order vote and refused requests in between.
    let block = block_at(1, 5, 4, signer());
    let info = block.gen_block_info();
    let parent = BlockInfo::new(1, 4, id_of(0x14), 40);
    let qc = QuorumCert::new(VoteData::new(info, parent), LedgerInfo::new(parent, HashValue::zero()));
    rules.construct_and_sign_proxy_order_vote(&OrderVoteProposal { block, block_info: info, quorum_cert: qc }).unwrap();
    assert!(rules.construct_and_sign_proxy_vote(&VoteProposal { block: block_at(1, 3, 2, signer()) }, None).is_err());
    assert!(rules.construct_and_sign_proxy_vote(&VoteProposal { block: block_at(2, 9, 8, signer()) }, None).is_err());
    let again = rules
        .construct_and_sign_proxy_vote(&VoteProposal { block: block_at(1, 5, 3, AccountAddress::new([0xbb; 32])) }, None)
        .unwrap();
    assert_eq!(first, again);
}
