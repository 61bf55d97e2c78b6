use proxy_primary::proxy_block_store::ProxyBlockStore;
use proxy_primary::proxy_error::ProxyConsensusError;
use proxy_primary::proxy_leader_election::ProxyLeaderElection;
use proxy_primary::proxy_messages::{ProxyOrderVoteMsg, ProxyProposalMsg, ProxySyncInfo, ProxyVoteMsg};
use proxy_primary::proxy_round_manager::{
    PrimaryToProxyEvent, ProxyRoundManager, ProxyRoundManagerConfig,
};
use proxy_primary::proxy_safety_rules::ProxySafetyRules;
use proxy_primary::types::{
    AccountAddress, Block, BlockData, BlockInfo, EpochState, HashValue, LedgerInfo, OrderVote,
    Payload, QuorumCert, Round, TwoChainTimeoutCertificate, ValidatorConsensusInfo,
    ValidatorVerifier, Vote, VoteData,
};

#[test]
fn test_proxy_round_manager_config_default() {
    let config = ProxyRoundManagerConfig::default();
    assert_eq!(config.round_timeout_ms, 1000);
    assert_eq!(config.max_blocks_per_primary_round, 20);
    assert_eq!(config.backpressure_delay_ms, 50);
}

// ---------------------------------------------------------------------------
// Further cases.
// ---------------------------------------------------------------------------

fn id_of(byte: u8) -> HashValue {
    HashValue::new([byte; 32])
}

fn validator(byte: u8) -> AccountAddress {
    AccountAddress::new([byte; 32])
}

fn make_qc(epoch: u64, round: Round) -> QuorumCert {
    let block_info = BlockInfo::new(epoch, round, id_of(0x80 + round as u8), 0);
    QuorumCert::new(VoteData::new(block_info, block_info), LedgerInfo::new(block_info, HashValue::zero()))
}

fn proxy_block(id: u8, round: Round, primary_round: Round, primary_qc: Option<QuorumCert>) -> Block {
    let data = BlockData::new_from_proxy(
        1,
        round,
        round * 10,
        make_qc(1, round - 1),
        vec![],
        Payload::empty(),
        validator(1),
        vec![],
        primary_round,
        primary_qc,
    );
    Block::new(id_of(id), data)
}

/// A round manager for four validators of power one (a quorum is three),
/// whose store holds the given blocks.
fn manager_with(blocks: Vec<Block>) -> ProxyRoundManager {
    let infos: Vec<ValidatorConsensusInfo> = (1..=4u8)
        .map(|b| ValidatorConsensusInfo { address: validator(b), voting_power: 1 })
        .collect();
    let epoch_state = EpochState { epoch: 1, verifier: ValidatorVerifier::new(infos) };
    let mut store = ProxyBlockStore::new(id_of(0), make_qc(1, 0), make_qc(1, 0));
    for b in blocks {
        store.insert_block(b).unwrap();
    }
    let election = ProxyLeaderElection::new((1..=4u8).map(validator).collect(), validator(1));
    let rules = ProxySafetyRules::new(validator(1));
    ProxyRoundManager::new(
        epoch_state,
        store,
        election,
        rules,
        ProxyRoundManagerConfig::default(),
        validator(1),
        0,
        1,
    )
}

fn order_vote_msg(voter: u8, block: &Block) -> ProxyOrderVoteMsg {
    let info = block.gen_block_info();
    let order_vote = OrderVote::new(validator(voter), LedgerInfo::new(info, HashValue::zero()));
    ProxyOrderVoteMsg {
        order_vote,
        quorum_cert: QuorumCert::new(VoteData::new(info, info), LedgerInfo::new(info, HashValue::zero())),
    }
}

fn sync_info() -> ProxySyncInfo {
    ProxySyncInfo::new(make_qc(1, 0), None, None, make_qc(1, 0), None)
}

#[test]
fn primary_certificates_advance_the_primary_round() {
    let mut m = manager_with(vec![]);
    assert_eq!(m.current_primary_round(), 1);
    assert!(!m.should_attach_primary_qc());
    assert_eq!(m.process_primary_event(Some(PrimaryToProxyEvent::NewPrimaryQC(make_qc(1, 1)))).unwrap(), true);
    assert_eq!(m.current_primary_round(), 2);
    assert_eq!(m.block_store().current_primary_round(), 2);
    assert!(m.should_attach_primary_qc());
    // An older certificate changes nothing.
    assert_eq!(m.process_primary_event(Some(PrimaryToProxyEvent::NewPrimaryQC(make_qc(1, 0)))).unwrap(), true);
    assert_eq!(m.current_primary_round(), 2);
    // A timeout certificate of an earlier primary round changes nothing.
    let old_tc = TwoChainTimeoutCertificate::new(1, 1, 0);
    assert_eq!(m.process_primary_event(Some(PrimaryToProxyEvent::NewPrimaryTC(old_tc))).unwrap(), true);
    assert_eq!(m.current_primary_round(), 2);
    // One at or after the primary round moves past its round and shuts proxy consensus down.
    let tc = TwoChainTimeoutCertificate::new(1, 4, 1);
    match m.process_primary_event(Some(PrimaryToProxyEvent::NewPrimaryTC(tc))) {
        Err(ProxyConsensusError::ShutdownTriggered { tc_round, primary_round }) => {
            assert_eq!((tc_round, primary_round), (4, 2))
        }
        other => panic!("unexpected {:?}", other),
    }
    assert_eq!(m.current_primary_round(), 5);
    assert_eq!(m.block_store().current_primary_round(), 5);
    // The certificate to attach is taken once.
    assert_eq!(m.take_pending_primary_qc(), Some(make_qc(1, 1)));
    assert!(!m.should_attach_primary_qc());
    assert_eq!(m.take_pending_primary_qc(), None);
}

#[test]
fn shutdown_or_closed_channel_stops_the_loop() {
    let mut m = manager_with(vec![]);
    assert_eq!(m.process_primary_event(Some(PrimaryToProxyEvent::Shutdown)).unwrap(), false);
    assert_eq!(m.process_primary_event(None).unwrap(), false);
    assert_eq!(m.current_primary_round(), 1);
}

#[test]
fn proposals_must_move_the_round_forward() {
    let mut m = manager_with(vec![]);
    let msg = ProxyProposalMsg { proposal: proxy_block(3, 3, 1, None), sync_info: sync_info() };
    m.process_proxy_proposal_msg(&msg, validator(1)).unwrap();
    assert_eq!(m.current_round(), 3);
    let old = ProxyProposalMsg { proposal: proxy_block(2, 2, 1, None), sync_info: sync_info() };
    match m.process_proxy_proposal_msg(&old, validator(1)) {
        Err(ProxyConsensusError::RoundTooOld { round, last_voted }) => assert_eq!((round, last_voted), (2, 3)),
        other => panic!("unexpected {:?}", other),
    }
    assert_eq!(m.current_round(), 3);
    m.process_new_round(7).unwrap();
    assert_eq!(m.current_round(), 7);
}

#[test]
fn votes_are_accepted() {
    let mut m = manager_with(vec![]);
    let info = BlockInfo::new(1, 1, id_of(1), 10);
    for voter in 1..=4u8 {
        let vote = Vote::new(VoteData::new(info, info), validator(voter), LedgerInfo::new(info, HashValue::zero()));
        assert!(m.process_proxy_vote_msg(&ProxyVoteMsg { vote, sync_info: sync_info() }, validator(voter)).is_ok());
    }
}

#[test]
fn order_certificate_on_a_cutting_block_forwards_the_ordered_blocks() {
    let first = proxy_block(1, 1, 2, None);
    let cutting = proxy_block(2, 2, 2, Some(make_qc(1, 1)));
    let mut m = manager_with(vec![first.clone(), cutting.clone()]);
    assert_eq!(m.process_primary_event(Some(PrimaryToProxyEvent::NewPrimaryQC(make_qc(1, 1)))).unwrap(), true);
    assert_eq!(m.current_primary_round(), 2);

    // Two order votes are below the quorum of three.
    assert!(m.process_proxy_order_vote_msg(&order_vote_msg(1, &first), validator(1)).unwrap().is_none());
    assert!(m.process_proxy_order_vote_msg(&order_vote_msg(2, &first), validator(2)).unwrap().is_none());
    assert!(m.block_store().get_ordered_blocks(2).is_empty());
    // The third orders the block, which cuts nothing.
    assert!(m.process_proxy_order_vote_msg(&order_vote_msg(3, &first), validator(3)).unwrap().is_none());
    let ordered: Vec<HashValue> = m.block_store().get_ordered_blocks(2).iter().map(|b| b.id()).collect();
    assert_eq!(ordered, vec![id_of(1)]);

    // A vote of a non-validator has no power.
    assert!(m.process_proxy_order_vote_msg(&order_vote_msg(9, &cutting), validator(9)).unwrap().is_none());
    assert!(m.process_proxy_order_vote_msg(&order_vote_msg(1, &cutting), validator(1)).unwrap().is_none());
    assert!(m.process_proxy_order_vote_msg(&order_vote_msg(2, &cutting), validator(2)).unwrap().is_none());
    let msg = m
        .process_proxy_order_vote_msg(&order_vote_msg(3, &cutting), validator(3))
        .unwrap()
        .expect("the cut forwards the ordered blocks");
    let ids: Vec<HashValue> = msg.proxy_blocks().iter().map(|b| b.id()).collect();
    assert_eq!(ids, vec![id_of(1), id_of(2)]);
    assert_eq!(msg.primary_round(), 2);
    assert_eq!(msg.primary_qc(), make_qc(1, 1));
    // Forwarding consumed the certificate waiting to be attached.
    assert!(!m.should_attach_primary_qc());
}

#[test]
fn timeout_in_the_current_primary_round_shuts_down() {
    let mut m = manager_with(vec![]);
    match m.process_primary_tc(TwoChainTimeoutCertificate::new(1, 1, 0)) {
        Err(ProxyConsensusError::ShutdownTriggered { tc_round, primary_round }) => {
            assert_eq!((tc_round, primary_round), (1, 1))
        }
        other => panic!("unexpected {:?}", other),
    }
    assert_eq!(m.current_primary_round(), 2);
    // A second one for the round before the new primary round changes nothing.
    assert!(m.process_primary_tc(TwoChainTimeoutCertificate::new(1, 1, 0)).is_ok());
    assert_eq!(m.current_primary_round(), 2);
}

#[test]
fn cut_forwards_the_round_of_the_blocks_own_primary_certificate() {
    // The block cuts primary round 1 with the certificate of round 0; no
    // primary certificate reached the manager itself.
    let cutting = proxy_block(2, 2, 1, Some(make_qc(1, 0)));
    let mut m = manager_with(vec![cutting.clone()]);
    assert!(m.process_proxy_order_vote_msg(&order_vote_msg(1, &cutting), validator(1)).unwrap().is_none());
    assert!(m.process_proxy_order_vote_msg(&order_vote_msg(2, &cutting), validator(2)).unwrap().is_none());
    let msg = m
        .process_proxy_order_vote_msg(&order_vote_msg(3, &cutting), validator(3))
        .unwrap()
        .expect("the cut forwards the ordered blocks");
    assert_eq!(msg.primary_round(), 1);
    assert_eq!(msg.primary_qc(), make_qc(1, 0));
    assert_eq!(msg.proxy_blocks().len(), 1);
    assert_eq!(m.block_store().get_ordered_blocks(1).len(), 1);
}

#[test]
fn cut_after_a_later_primary_certificate_keeps_its_own_round() {
    let first = proxy_block(1, 1, 2, None);
    let cutting = proxy_block(2, 2, 2, Some(make_qc(1, 1)));
    let mut m = manager_with(vec![first.clone(), cutting.clone()]);
    // Primary consensus has moved on to round 4 before the cut is ordered.
    assert_eq!(m.process_primary_event(Some(PrimaryToProxyEvent::NewPrimaryQC(make_qc(1, 3)))).unwrap(), true);
    assert_eq!(m.current_primary_round(), 4);
    for voter in 1..=3u8 {
        assert!(m.process_proxy_order_vote_msg(&order_vote_msg(voter, &first), validator(voter)).unwrap().is_none());
    }
    for voter in 1..=2u8 {
        assert!(m.process_proxy_order_vote_msg(&order_vote_msg(voter, &cutting), validator(voter)).unwrap().is_none());
    }
    let msg = m
        .process_proxy_order_vote_msg(&order_vote_msg(3, &cutting), validator(3))
        .unwrap()
        .expect("the cut forwards the ordered blocks");
    let ids: Vec<HashValue> = msg.proxy_blocks().iter().map(|b| b.id()).collect();
    assert_eq!(ids, vec![id_of(1), id_of(2)]);
    assert_eq!(msg.primary_round(), 2);
    assert_eq!(msg.primary_qc(), make_qc(1, 1));
    assert!(m.block_store().get_ordered_blocks(4).is_empty());
    assert!(!m.should_attach_primary_qc());
}

#[test]
fn order_certificate_for_an_unknown_block_orders_nothing() {
    let mut m = manager_with(vec![]);
    let stranger = proxy_block(5, 5, 1, Some(make_qc(1, 0)));
    for voter in 1..=3u8 {
        assert!(m.process_proxy_order_vote_msg(&order_vote_msg(voter, &stranger), validator(voter)).unwrap().is_none());
    }
    assert!(m.block_store().get_ordered_blocks(1).is_empty());
}

#[test]
fn leadership_rotates_among_the_proxies() {
    let m = manager_with(vec![]);
    assert!(m.is_leader(0));
    assert!(!m.is_leader(1));
    assert!(m.is_leader(4));
    assert_eq!(m.epoch_state().epoch, 1);
    assert_eq!(*m.config(), ProxyRoundManagerConfig::default());
}

#[test]
fn repeated_order_votes_of_one_author_count_once() {
    let cutting = proxy_block(2, 2, 1, Some(make_qc(1, 0)));
    let mut m = manager_with(vec![cutting.clone()]);
    for _ in 0..5 {
        assert!(m.process_proxy_order_vote_msg(&order_vote_msg(1, &cutting), validator(1)).unwrap().is_none());
    }
    assert!(m.block_store().get_ordered_blocks(1).is_empty());
    assert!(m.process_proxy_order_vote_msg(&order_vote_msg(2, &cutting), validator(2)).unwrap().is_none());
    assert!(m.block_store().get_ordered_blocks(1).is_empty());
    let msg = m.process_proxy_order_vote_msg(&order_vote_msg(3, &cutting), validator(3)).unwrap();
    assert!(msg.is_some());
}
