use proxy_primary::proxy_block_store::{ProxyBlockReader, ProxyBlockStore};
use proxy_primary::proxy_error::ProxyConsensusError;
use proxy_primary::types::{
    AccountAddress, Block, BlockData, BlockInfo, HashValue, LedgerInfo, Payload, QuorumCert, Round,
    TwoChainTimeoutCertificate, VoteData, WrappedLedgerInfo,
};
use std::collections::hash_map::RandomState;
use std::hash::{BuildHasher, Hasher};

fn random_hash() -> HashValue {
    let mut bytes = [0u8; 32];
    for chunk in bytes.chunks_mut(8) {
        let mut h = RandomState::new().build_hasher();
        h.write_u64(1);
        chunk.copy_from_slice(&h.finish().to_be_bytes());
    }
    HashValue::new(bytes)
}

fn make_qc(epoch: u64, round: Round) -> QuorumCert {
    let block_info = BlockInfo::new(epoch, round, random_hash(), 0);
    let vote_data = VoteData::new(block_info, block_info);
    let ledger_info = LedgerInfo::new(block_info, HashValue::zero());
    QuorumCert::new(vote_data, ledger_info)
}

#[test]
fn test_proxy_block_store_creation() {
    let genesis_id = random_hash();
    let proxy_qc = make_qc(1, 0);
    let primary_qc = make_qc(1, 0);
    let store = ProxyBlockStore::new(genesis_id, proxy_qc, primary_qc);
    assert_eq!(store.genesis_primary_block_id(), genesis_id);
    assert_eq!(
        store.highest_proxy_qc().certified_block().round(),
        proxy_qc.certified_block().round()
    );
    assert_eq!(
        store.highest_primary_qc().certified_block().round(),
        primary_qc.certified_block().round()
    );
    assert_eq!(store.current_primary_round(), 1);
}

#[test]
fn test_update_primary_qc() {
    let mut store = ProxyBlockStore::new(random_hash(), make_qc(1, 0), make_qc(1, 0));
    let new_qc = make_qc(1, 5);
    store.update_highest_primary_qc(new_qc);
    assert_eq!(store.highest_primary_qc().certified_block().round(), 5);
    assert_eq!(store.current_primary_round(), 6);
}

#[test]
fn test_current_primary_round_with_tc() {
    let store = ProxyBlockStore::new(random_hash(), make_qc(1, 0), make_qc(1, 3));
    assert_eq!(store.current_primary_round(), 4);
}

#[test]
fn test_clear() {
    let mut store = ProxyBlockStore::new(random_hash(), make_qc(1, 0), make_qc(1, 0));
    store.clear();
    assert!(store.get_block(random_hash()).is_none());
}

// ---------------------------------------------------------------------------
// Further cases.
// ---------------------------------------------------------------------------

fn id_of(byte: u8) -> HashValue {
    HashValue::new([byte; 32])
}

fn proxy_block(id: u8, round: Round, primary_round: Round, with_pqc: bool) -> Block {
    let pqc = if with_pqc { Some(make_qc(1, primary_round - 1)) } else { None };
    let data = BlockData::new_from_proxy(
        1,
        round,
        round * 10,
        make_qc(1, round - 1),
        vec![],
        Payload::empty(),
        AccountAddress::new([7; 32]),
        vec![],
        primary_round,
        pqc,
    );
    Block::new(id_of(id), data)
}

#[test]
fn insert_then_get_by_id_and_round() {
    let mut store = ProxyBlockStore::new(id_of(0), make_qc(1, 0), make_qc(1, 0));
    store.insert_block(proxy_block(1, 1, 1, false)).unwrap();
    store.insert_block(proxy_block(2, 2, 1, true)).unwrap();
    assert_eq!(store.get_block(id_of(1)).unwrap().round(), 1);
    assert_eq!(store.get_block_for_round(2).unwrap().id(), id_of(2));
    assert!(store.get_block_for_round(3).is_none());
    assert_eq!(store.count_blocks_for_primary_round(1), 2);
    assert_eq!(store.count_blocks_for_primary_round(2), 0);
    // Re-inserting under the same identifier replaces the block.
    store.insert_block(proxy_block(1, 1, 2, false)).unwrap();
    assert_eq!(store.count_blocks_for_primary_round(1), 1);
    assert_eq!(store.count_blocks_for_primary_round(2), 1);
}

#[test]
fn non_proxy_block_is_refused() {
    let mut store = ProxyBlockStore::new(id_of(0), make_qc(1, 0), make_qc(1, 0));
    let data = BlockData::new_proposal(Payload::empty(), AccountAddress::new([7; 32]), vec![], 1, 1, 5, make_qc(1, 0));
    match store.insert_block(Block::new(id_of(9), data)) {
        Err(ProxyConsensusError::InvalidProxyBlock(m)) => assert_eq!(m, "Not a proxy block"),
        other => panic!("unexpected {:?}", other),
    }
    assert!(store.get_block(id_of(9)).is_none());
}

#[test]
fn ordered_blocks_follow_marking_order() {
    let mut store = ProxyBlockStore::new(id_of(0), make_qc(1, 0), make_qc(1, 0));
    for i in 1..=3u8 {
        store.insert_block(proxy_block(i, i as u64, 1, i == 3)).unwrap();
    }
    store.mark_block_ordered(id_of(2), 1).unwrap();
    store.mark_block_ordered(id_of(1), 1).unwrap();
    store.mark_block_ordered(id_of(3), 1).unwrap();
    let ids: Vec<HashValue> = store.get_ordered_blocks(1).iter().map(|b| b.id()).collect();
    assert_eq!(ids, vec![id_of(2), id_of(1), id_of(3)]);
    assert!(store.get_ordered_blocks(2).is_empty());
    match store.mark_block_ordered(id_of(8), 1) {
        Err(ProxyConsensusError::ParentNotFound(h)) => assert_eq!(h, id_of(8)),
        other => panic!("unexpected {:?}", other),
    }
}

#[test]
fn prune_removes_rounds_up_to_the_given_one() {
    let mut store = ProxyBlockStore::new(id_of(0), make_qc(1, 0), make_qc(1, 0));
    for i in 1..=4u8 {
        store.insert_block(proxy_block(i, i as u64, 1, false)).unwrap();
    }
    store.mark_block_ordered(id_of(1), 1).unwrap();
    store.mark_block_ordered(id_of(3), 1).unwrap();
    store.prune_blocks_to_round(2);
    assert!(store.get_block(id_of(1)).is_none());
    assert!(store.get_block(id_of(2)).is_none());
    assert!(store.get_block_for_round(2).is_none());
    assert_eq!(store.get_block(id_of(3)).unwrap().round(), 3);
    assert_eq!(store.get_block_for_round(4).unwrap().id(), id_of(4));
    // The marks stay; pruned blocks are skipped.
    let ids: Vec<HashValue> = store.get_ordered_blocks(1).iter().map(|b| b.id()).collect();
    assert_eq!(ids, vec![id_of(3)]);
}

#[test]
fn clear_keeps_genesis_and_certificates() {
    let genesis = id_of(0x42);
    let mut store = ProxyBlockStore::new(genesis, make_qc(1, 0), make_qc(1, 4));
    store.insert_block(proxy_block(1, 1, 5, false)).unwrap();
    store.mark_block_ordered(id_of(1), 5).unwrap();
    store.clear();
    assert!(store.get_block(id_of(1)).is_none());
    assert!(store.get_ordered_blocks(5).is_empty());
    assert_eq!(store.genesis_primary_block_id(), genesis);
    assert_eq!(store.current_primary_round(), 5);
}

#[test]
fn certificates_only_move_up() {
    let mut store = ProxyBlockStore::new(id_of(0), make_qc(1, 3), make_qc(1, 3));
    store.update_highest_primary_qc(make_qc(1, 2));
    assert_eq!(store.highest_primary_qc().certified_block().round(), 3);
    store.update_highest_proxy_qc(make_qc(1, 2));
    assert_eq!(store.highest_proxy_qc().certified_block().round(), 3);
    store.update_highest_proxy_qc(make_qc(1, 9));
    assert_eq!(store.highest_proxy_qc().certified_block().round(), 9);

    store.update_highest_primary_tc(TwoChainTimeoutCertificate::new(1, 7, 3));
    assert_eq!(store.current_primary_round(), 8);
    store.update_highest_primary_tc(TwoChainTimeoutCertificate::new(1, 6, 3));
    assert_eq!(store.highest_primary_tc().unwrap().round(), 7);

    store.update_highest_proxy_timeout_cert(TwoChainTimeoutCertificate::new(1, 4, 2));
    store.update_highest_proxy_timeout_cert(TwoChainTimeoutCertificate::new(1, 3, 2));
    let info = BlockInfo::new(1, 6, id_of(6), 0);
    let cert = WrappedLedgerInfo { vote_data: VoteData::new(info, info), ledger_info: LedgerInfo::new(info, HashValue::zero()) };
    store.update_highest_proxy_ordered_cert(cert);
    let older_info = BlockInfo::new(1, 5, id_of(5), 0);
    store.update_highest_proxy_ordered_cert(WrappedLedgerInfo { vote_data: VoteData::new(older_info, older_info), ledger_info: LedgerInfo::new(older_info, HashValue::zero()) });
    let sync = store.proxy_sync_info();
    assert_eq!(sync.highest_proxy_certified_round(), 9);
    assert_eq!(sync.highest_primary_certified_round(), 3);
    assert_eq!(sync.highest_proxy_timeout_cert.unwrap().round, 4);
    assert_eq!(sync.highest_proxy_ordered_cert.unwrap().commit_info().round(), 6);
    assert_eq!(sync.highest_primary_tc.unwrap().round, 7);
}

#[test]
fn reader_trait_reads_the_store() {
    let mut store = ProxyBlockStore::new(id_of(0), make_qc(1, 2), make_qc(1, 4));
    store.insert_block(proxy_block(1, 1, 5, true)).unwrap();
    store.mark_block_ordered(id_of(1), 5).unwrap();
    store.update_highest_primary_tc(TwoChainTimeoutCertificate::new(1, 6, 4));
    check_reader(&store);
}

fn check_reader<R: ProxyBlockReader>(reader: &R) {
    assert_eq!(reader.get_proxy_block(id_of(1)).unwrap().round(), 1);
    assert!(reader.get_proxy_block(id_of(2)).is_none());
    assert_eq!(reader.highest_proxy_qc().certified_block().round(), 2);
    assert_eq!(reader.highest_primary_qc().certified_block().round(), 4);
    assert_eq!(reader.highest_primary_tc().map(|t| t.round()), Some(6));
    assert_eq!(reader.current_primary_round(), 7);
    assert_eq!(reader.proxy_sync_info().highest_primary_certified_round(), 4);
    assert_eq!(reader.get_ordered_proxy_blocks(5).len(), 1);
}

#[test]
fn genesis_never_changes() {
    let genesis = id_of(0x42);
    let mut store = ProxyBlockStore::new(genesis, make_qc(1, 0), make_qc(1, 0));
    store.insert_block(proxy_block(1, 1, 1, false)).unwrap();
    store.mark_block_ordered(id_of(1), 1).unwrap();
    store.update_highest_proxy_qc(make_qc(1, 3));
    store.update_highest_primary_qc(make_qc(1, 3));
    store.update_highest_primary_tc(TwoChainTimeoutCertificate::new(1, 5, 3));
    store.prune_blocks_to_round(1);
    store.clear();
    assert_eq!(store.genesis_primary_block_id(), genesis);
}

#[test]
fn prune_removes_every_block_of_a_pruned_round() {
    let mut store = ProxyBlockStore::new(id_of(0), make_qc(1, 0), make_qc(1, 0));
    // Two blocks of round 3: the second takes over the round entry.
    store.insert_block(proxy_block(1, 3, 1, false)).unwrap();
    store.insert_block(proxy_block(2, 3, 1, false)).unwrap();
    store.insert_block(proxy_block(3, 4, 1, false)).unwrap();
    assert_eq!(store.get_block_for_round(3).unwrap().id(), id_of(2));
    store.prune_blocks_to_round(3);
    assert!(store.get_block(id_of(1)).is_none());
    assert!(store.get_block(id_of(2)).is_none());
    assert!(store.get_block_for_round(3).is_none());
    assert_eq!(store.get_block(id_of(3)).unwrap().round(), 4);
    assert_eq!(store.get_block_for_round(4).unwrap().id(), id_of(3));
    assert_eq!(store.count_blocks_for_primary_round(1), 1);
}
