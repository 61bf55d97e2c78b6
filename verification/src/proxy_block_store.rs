//! In-memory store of proxy blocks.
//!
//! The store indexes proxy blocks by identifier and by round, records which
//! blocks were ordered in each primary round, and keeps the highest
//! certificates of both consensus layers. It holds no persistent state.
use crate::pair_map::{
    filter_keys, keys_unique, lemma_filter_keys, lemma_pairs_contains, lemma_pairs_lookup,
    lemma_pairs_finite, lemma_pairs_push, lemma_pairs_update, pairs_to_map,
};
use crate::proxy_error::ProxyConsensusError;
use crate::proxy_messages::ProxySyncInfo;
use crate::types::{
    Block, BlockView, HashValue, QuorumCert, Round, TwoChainTimeoutCertificate, WrappedLedgerInfo,
};
use vstd::prelude::*;

verus! {

/// The blocks of a list as pairs of identifier and model.
pub open spec fn block_pairs(s: Seq<Block>) -> Seq<(HashValue, BlockView)> {
    s.map_values(|b: Block| (b.id, b@))
}

/// The identifiers marked ordered for primary round `pr`, in the order they were marked.
pub open spec fn ordered_ids(s: Seq<(Round, HashValue)>, pr: Round) -> Seq<HashValue>
    decreases s.len(),
{
    if s.len() == 0 {
        Seq::empty()
    } else if s.last().0 == pr {
        ordered_ids(s.drop_last(), pr).push(s.last().1)
    } else {
        ordered_ids(s.drop_last(), pr)
    }
}

/// The primary rounds that have ordered blocks, each with its ordered identifiers.
pub open spec fn ordered_map(s: Seq<(Round, HashValue)>) -> Map<Round, Seq<HashValue>> {
    Map::new(
        |pr: Round| exists|i: int| 0 <= i < s.len() && s[i].0 == pr,
        |pr: Round| ordered_ids(s, pr),
    )
}

/// The stored blocks that a list of identifiers names, in order; identifiers
/// of blocks not in the store are skipped.
pub open spec fn blocks_for(ids: Seq<HashValue>, blocks: Map<HashValue, BlockView>) -> Seq<BlockView>
    decreases ids.len(),
{
    if ids.len() == 0 {
        Seq::empty()
    } else if blocks.contains_key(ids.last()) {
        blocks_for(ids.drop_last(), blocks).push(blocks[ids.last()])
    } else {
        blocks_for(ids.drop_last(), blocks)
    }
}

/// The identifiers of the stored blocks of primary round `pr`.
pub open spec fn ids_in_primary_round(blocks: Map<HashValue, BlockView>, pr: Round) -> Set<HashValue> {
    blocks.dom().filter(|id: HashValue| blocks[id].primary_round() == Some(pr))
}

/// The round of an optional timeout certificate (zero when there is none).
pub open spec fn opt_tc_round(tc: Option<TwoChainTimeoutCertificate>) -> Round {
    match tc {
        Some(t) => t.round,
        None => 0,
    }
}

/// The model of a [`ProxyBlockStore`].
pub struct ProxyBlockStoreView {
    pub genesis_primary_block_id: HashValue,
    /// The stored blocks, by identifier.
    pub blocks: Map<HashValue, BlockView>,
    /// The identifier of the block last inserted for each round.
    pub round_to_id: Map<Round, HashValue>,
    /// The identifiers marked ordered, by primary round.
    pub ordered: Map<Round, Seq<HashValue>>,
    pub highest_proxy_qc: QuorumCert,
    pub highest_proxy_ordered_cert: Option<WrappedLedgerInfo>,
    pub highest_proxy_timeout_cert: Option<TwoChainTimeoutCertificate>,
    pub highest_primary_qc: QuorumCert,
    pub highest_primary_tc: Option<TwoChainTimeoutCertificate>,
}

impl ProxyBlockStoreView {
    /// The current primary round: one above the highest primary certificate or
    /// timeout certificate round.
    pub open spec fn current_primary_round(self) -> int {
        let qc_round = self.highest_primary_qc.vote_data.proposed.round;
        let tc_round = opt_tc_round(self.highest_primary_tc);
        (if qc_round >= tc_round {
            qc_round
        } else {
            tc_round
        }) + 1
    }

    /// The store after inserting proxy block `b` under its identifier and round.
    pub open spec fn with_block(self, b: BlockView) -> ProxyBlockStoreView {
        ProxyBlockStoreView {
            blocks: self.blocks.insert(b.id, b),
            round_to_id: self.round_to_id.insert(b.round(), b.id),
            ..self
        }
    }

    /// The identifiers marked ordered for primary round `pr` (none if unmarked).
    pub open spec fn ordered_ids_of(self, pr: Round) -> Seq<HashValue> {
        if self.ordered.contains_key(pr) {
            self.ordered[pr]
        } else {
            Seq::empty()
        }
    }

    /// The store after marking block `id` ordered in primary round `pr`.
    pub open spec fn with_ordered_mark(self, id: HashValue, pr: Round) -> ProxyBlockStoreView {
        ProxyBlockStoreView { ordered: self.ordered.insert(pr, self.ordered_ids_of(pr).push(id)), ..self }
    }

    /// The identifiers of the stored blocks whose round is above `round`.
    pub open spec fn ids_above_round(self, round: Round) -> Set<HashValue> {
        Set::new(|id: HashValue| self.blocks.contains_key(id) && self.blocks[id].round() > round)
    }

    /// The store after pruning the blocks of rounds up to and including
    /// `round`, and the round entries of those rounds.
    pub open spec fn pruned(self, round: Round) -> ProxyBlockStoreView {
        ProxyBlockStoreView {
            blocks: self.blocks.restrict(self.ids_above_round(round)),
            round_to_id: self.round_to_id.restrict(Set::new(|r: Round| r > round)),
            ..self
        }
    }

    /// The store without blocks, round entries and ordering marks.
    pub open spec fn cleared(self) -> ProxyBlockStoreView {
        ProxyBlockStoreView {
            blocks: Map::empty(),
            round_to_id: Map::empty(),
            ordered: Map::empty(),
            ..self
        }
    }

    /// The store after offering `qc` as highest proxy certificate.
    pub open spec fn with_proxy_qc(self, qc: QuorumCert) -> ProxyBlockStoreView {
        ProxyBlockStoreView {
            highest_proxy_qc: if qc.vote_data.proposed.round > self.highest_proxy_qc.vote_data.proposed.round {
                qc
            } else {
                self.highest_proxy_qc
            },
            ..self
        }
    }

    /// The store after offering `cert` as highest proxy ordering certificate.
    pub open spec fn with_proxy_ordered_cert(self, cert: WrappedLedgerInfo) -> ProxyBlockStoreView {
        ProxyBlockStoreView {
            highest_proxy_ordered_cert: match self.highest_proxy_ordered_cert {
                Some(existing) => if cert.ledger_info.commit_info.round
                    > existing.ledger_info.commit_info.round {
                    Some(cert)
                } else {
                    Some(existing)
                },
                None => Some(cert),
            },
            ..self
        }
    }

    /// The store after offering `tc` as highest proxy timeout certificate.
    pub open spec fn with_proxy_timeout_cert(self, tc: TwoChainTimeoutCertificate) -> ProxyBlockStoreView {
        ProxyBlockStoreView {
            highest_proxy_timeout_cert: match self.highest_proxy_timeout_cert {
                Some(existing) => if tc.round > existing.round {
                    Some(tc)
                } else {
                    Some(existing)
                },
                None => Some(tc),
            },
            ..self
        }
    }

    /// The store after offering `qc` as highest primary certificate.
    pub open spec fn with_primary_qc(self, qc: QuorumCert) -> ProxyBlockStoreView {
        ProxyBlockStoreView {
            highest_primary_qc: if qc.vote_data.proposed.round
                > self.highest_primary_qc.vote_data.proposed.round {
                qc
            } else {
                self.highest_primary_qc
            },
            ..self
        }
    }

    /// The store after offering `tc` as highest primary timeout certificate.
    pub open spec fn with_primary_tc(self, tc: TwoChainTimeoutCertificate) -> ProxyBlockStoreView {
        ProxyBlockStoreView {
            highest_primary_tc: match self.highest_primary_tc {
                Some(existing) => if tc.round > existing.round {
                    Some(tc)
                } else {
                    Some(existing)
                },
                None => Some(tc),
            },
            ..self
        }
    }

    /// The blocks ordered for primary round `pr`, in the order they were marked.
    pub open spec fn ordered_blocks(self, pr: Round) -> Seq<BlockView> {
        blocks_for(self.ordered_ids_of(pr), self.blocks)
    }
}

/// In-memory proxy block store.
#[derive(Debug)]
pub struct ProxyBlockStore {
    /// The primary block that serves as genesis for this proxy consensus epoch.
    genesis_primary_block_id: HashValue,
    /// The blocks, with distinct identifiers.
    id_to_block: Vec<Block>,
    /// Round to block identifier, with distinct rounds.
    round_to_id: Vec<(Round, HashValue)>,
    /// The marks of ordered blocks, as (primary round, identifier), in marking order.
    ordered_marks: Vec<(Round, HashValue)>,
    highest_proxy_qc: QuorumCert,
    highest_proxy_ordered_cert: Option<WrappedLedgerInfo>,
    highest_proxy_timeout_cert: Option<TwoChainTimeoutCertificate>,
    highest_primary_qc: QuorumCert,
    highest_primary_tc: Option<TwoChainTimeoutCertificate>,
}

impl View for ProxyBlockStore {
    type V = ProxyBlockStoreView;

    closed spec fn view(&self) -> ProxyBlockStoreView {
        ProxyBlockStoreView {
            genesis_primary_block_id: self.genesis_primary_block_id,
            blocks: pairs_to_map(block_pairs(self.id_to_block@)),
            round_to_id: pairs_to_map(self.round_to_id@),
            ordered: ordered_map(self.ordered_marks@),
            highest_proxy_qc: self.highest_proxy_qc,
            highest_proxy_ordered_cert: self.highest_proxy_ordered_cert,
            highest_proxy_timeout_cert: self.highest_proxy_timeout_cert,
            highest_primary_qc: self.highest_primary_qc,
            highest_primary_tc: self.highest_primary_tc,
        }
    }
}

/// Finds the index of the block with identifier `id`.
fn find_block(blocks: &Vec<Block>, id: HashValue) -> (r: Option<usize>)
    ensures
        match r {
            Some(i) => i < blocks@.len() && blocks@[i as int].id == id,
            None => forall|i: int| 0 <= i < blocks@.len() ==> blocks@[i].id != id,
        },
{
    let mut i: usize = 0;
    while i < blocks.len()
        invariant
            i <= blocks@.len(),
            forall|k: int| 0 <= k < i ==> blocks@[k].id != id,
        decreases blocks@.len() - i,
    {
        if blocks[i].id == id {
            return Some(i);
        }
        i = i + 1;
    }
    None
}

/// Finds the index of the pair with round `r`.
fn find_round(pairs: &Vec<(Round, HashValue)>, round: Round) -> (r: Option<usize>)
    ensures
        match r {
            Some(i) => i < pairs@.len() && pairs@[i as int].0 == round,
            None => forall|i: int| 0 <= i < pairs@.len() ==> pairs@[i].0 != round,
        },
{
    let mut i: usize = 0;
    while i < pairs.len()
        invariant
            i <= pairs@.len(),
            forall|k: int| 0 <= k < i ==> pairs@[k].0 != round,
        decreases pairs@.len() - i,
    {
        if pairs[i].0 == round {
            return Some(i);
        }
        i = i + 1;
    }
    None
}

/// The map of a list of blocks holds exactly their identifiers.
proof fn lemma_block_pairs_contains(s: Seq<Block>, id: HashValue)
    ensures
        pairs_to_map(block_pairs(s)).contains_key(id) <==> exists|i: int| 0 <= i < s.len() && s[i].id == id,
{
    lemma_pairs_contains(block_pairs(s), id);
    if exists|i: int| 0 <= i < s.len() && s[i].id == id {
        let i = choose|i: int| 0 <= i < s.len() && s[i].id == id;
        assert(block_pairs(s)[i].0 == id);
    }
}

/// Blocks reached through identifiers extend by one identifier at a time.
proof fn lemma_blocks_for_push(ids: Seq<HashValue>, id: HashValue, blocks: Map<HashValue, BlockView>)
    ensures
        blocks_for(ids.push(id), blocks) == if blocks.contains_key(id) {
            blocks_for(ids, blocks).push(blocks[id])
        } else {
            blocks_for(ids, blocks)
        },
{
    assert(ids.push(id).drop_last() =~= ids);
}

impl ProxyBlockStore {
    /// The well-formedness of the store: identifiers and rounds are not repeated.
    pub closed spec fn wf(&self) -> bool {
        &&& keys_unique(block_pairs(self.id_to_block@))
        &&& keys_unique(self.round_to_id@)
    }

    /// A store with the given genesis and certificates and no blocks.
    pub fn new(
        genesis_primary_block_id: HashValue,
        initial_proxy_qc: QuorumCert,
        initial_primary_qc: QuorumCert,
    ) -> (s: Self)
        ensures
            s.wf(),
            s@ == (ProxyBlockStoreView {
                genesis_primary_block_id,
                blocks: Map::empty(),
                round_to_id: Map::empty(),
                ordered: Map::empty(),
                highest_proxy_qc: initial_proxy_qc,
                highest_proxy_ordered_cert: None,
                highest_proxy_timeout_cert: None,
                highest_primary_qc: initial_primary_qc,
                highest_primary_tc: None,
            }),
    {
        let s = ProxyBlockStore {
            genesis_primary_block_id,
            id_to_block: Vec::new(),
            round_to_id: Vec::new(),
            ordered_marks: Vec::new(),
            highest_proxy_qc: initial_proxy_qc,
            highest_proxy_ordered_cert: None,
            highest_proxy_timeout_cert: None,
            highest_primary_qc: initial_primary_qc,
            highest_primary_tc: None,
        };
        assert(block_pairs(s.id_to_block@) =~= Seq::empty());
        assert(s@.blocks =~= Map::empty());
        assert(s@.round_to_id =~= Map::empty());
        assert(s@.ordered =~= Map::empty());
        s
    }

    /// The genesis primary block of this proxy consensus epoch.
    pub fn genesis_primary_block_id(&self) -> (h: HashValue)
        ensures
            h == self@.genesis_primary_block_id,
    {
        self.genesis_primary_block_id
    }

    /// Inserts a proxy block under its identifier and its round; a block that
    /// is not a proxy block is refused.
    pub fn insert_block(&mut self, block: Block) -> (res: Result<(), ProxyConsensusError>)
        requires
            old(self).wf(),
        ensures
            final(self).wf(),
            block@.primary_round() is None ==> (res matches Err(
                ProxyConsensusError::InvalidProxyBlock(m),
            ) && m@ == "Not a proxy block"@ && final(self)@ == old(self)@),
            block@.primary_round() is Some ==> (res is Ok && final(self)@ == old(self)@.with_block(block@)),
    {
        let block_id = block.id();
        let round = block.round();
        if block.block_data().primary_round().is_none() {
            return Err(ProxyConsensusError::InvalidProxyBlock("Not a proxy block".to_string()));
        }
        let ghost bv = block@;
        let ghost old_blocks = self.id_to_block@;
        match find_block(&self.id_to_block, block_id) {
            Some(i) => {
                proof {
                    assert(block_pairs(old_blocks)[i as int].0 == block_id);
                    lemma_pairs_update(block_pairs(old_blocks), i as int, bv);
                }
                self.id_to_block.set(i, block);
                assert(block_pairs(self.id_to_block@) =~= block_pairs(old_blocks).update(
                    i as int,
                    (block_id, bv),
                ));
            },
            None => {
                proof {
                    lemma_block_pairs_contains(old_blocks, block_id);
                    lemma_pairs_push(block_pairs(old_blocks), block_id, bv);
                }
                self.id_to_block.push(block);
                assert(block_pairs(self.id_to_block@) =~= block_pairs(old_blocks).push(
                    (block_id, bv),
                ));
            },
        }
        let ghost old_rounds = self.round_to_id@;
        match find_round(&self.round_to_id, round) {
            Some(i) => {
                proof {
                    lemma_pairs_update(old_rounds, i as int, block_id);
                }
                self.round_to_id.set(i, (round, block_id));
            },
            None => {
                proof {
                    lemma_pairs_contains(old_rounds, round);
                    lemma_pairs_push(old_rounds, round, block_id);
                }
                self.round_to_id.push((round, block_id));
            },
        }
        Ok(())
    }

    /// Marks a stored block as ordered in `primary_round`; an unknown block is refused.
    pub fn mark_block_ordered(&mut self, block_id: HashValue, primary_round: Round) -> (res: Result<
        (),
        ProxyConsensusError,
    >)
        requires
            old(self).wf(),
        ensures
            final(self).wf(),
            !old(self)@.blocks.contains_key(block_id) ==> (res matches Err(
                ProxyConsensusError::ParentNotFound(h),
            ) && h == block_id && final(self)@ == old(self)@),
            old(self)@.blocks.contains_key(block_id) ==> (res is Ok && final(self)@ == old(
                self,
            )@.with_ordered_mark(block_id, primary_round)),
    {
        proof {
            lemma_block_pairs_contains(self.id_to_block@, block_id);
        }
        if find_block(&self.id_to_block, block_id).is_none() {
            return Err(ProxyConsensusError::ParentNotFound(block_id));
        }
        let ghost old_marks = self.ordered_marks@;
        self.ordered_marks.push((primary_round, block_id));
        proof {
            let s = self.ordered_marks@;
            assert(s.drop_last() =~= old_marks);
            assert forall|pr: Round| #![auto]
                pr != primary_round implies ordered_ids(s, pr) == ordered_ids(old_marks, pr) by {}
            if !ordered_map(old_marks).contains_key(primary_round) {
                assert forall|i: int| 0 <= i < old_marks.len() implies old_marks[i].0 != primary_round by {}
                lemma_ordered_ids_absent(old_marks, primary_round);
            }
            assert(s[old_marks.len() as int].0 == primary_round);
            assert forall|pr: Round| #![auto] ordered_map(s).contains_key(pr) <==> (pr == primary_round
                || ordered_map(old_marks).contains_key(pr)) by {
                if ordered_map(old_marks).contains_key(pr) {
                    let i = choose|i: int| 0 <= i < old_marks.len() && old_marks[i].0 == pr;
                    assert(s[i].0 == pr);
                }
                if ordered_map(s).contains_key(pr) && pr != primary_round {
                    let i = choose|i: int| 0 <= i < s.len() && s[i].0 == pr;
                    assert(old_marks[i].0 == pr);
                }
            }
            assert(ordered_map(s) =~= ordered_map(old_marks).insert(
                primary_round,
                if ordered_map(old_marks).contains_key(primary_round) {
                    ordered_map(old_marks)[primary_round]
                } else {
                    Seq::empty()
                }.push(block_id),
            ));
        }
        Ok(())
    }

    /// The stored block with identifier `block_id`, if any.
    pub fn get_block(&self, block_id: HashValue) -> (r: Option<Block>)
        requires
            self.wf(),
        ensures
            match r {
                Some(b) => self@.blocks.contains_key(block_id) && b@ == self@.blocks[block_id],
                None => !self@.blocks.contains_key(block_id),
            },
    {
        proof {
            lemma_block_pairs_contains(self.id_to_block@, block_id);
        }
        match find_block(&self.id_to_block, block_id) {
            Some(i) => {
                proof {
                    crate::pair_map::lemma_pairs_index(block_pairs(self.id_to_block@), i as int);
                    assert(block_pairs(self.id_to_block@)[i as int] == (
                        block_id,
                        self.id_to_block@[i as int]@,
                    ));
                }
                Some(self.id_to_block[i].clone())
            },
            None => None,
        }
    }

    /// The stored block last inserted for `round`, if it is still stored.
    pub fn get_block_for_round(&self, round: Round) -> (r: Option<Block>)
        requires
            self.wf(),
        ensures
            match r {
                Some(b) => self@.round_to_id.contains_key(round) && self@.blocks.contains_key(
                    self@.round_to_id[round],
                ) && b@ == self@.blocks[self@.round_to_id[round]],
                None => !self@.round_to_id.contains_key(round) || !self@.blocks.contains_key(
                    self@.round_to_id[round],
                ),
            },
    {
        proof {
            lemma_pairs_contains(self.round_to_id@, round);
        }
        match find_round(&self.round_to_id, round) {
            Some(i) => {
                proof {
                    crate::pair_map::lemma_pairs_index(self.round_to_id@, i as int);
                }
                self.get_block(self.round_to_id[i].1)
            },
            None => None,
        }
    }

    /// The blocks ordered for `primary_round`, in the order they were marked;
    /// marks of blocks no longer stored are skipped.
    pub fn get_ordered_blocks(&self, primary_round: Round) -> (r: Vec<Block>)
        requires
            self.wf(),
        ensures
            r@.map_values(|b: Block| b@) == self@.ordered_blocks(primary_round),
    {
        let ghost marks = self.ordered_marks@;
        let ghost blocks = self@.blocks;
        let mut out: Vec<Block> = Vec::new();
        let mut i: usize = 0;
        while i < self.ordered_marks.len()
            invariant
                self.wf(),
                i <= marks.len(),
                marks == self.ordered_marks@,
                blocks == self@.blocks,
                out@.map_values(|b: Block| b@) == blocks_for(
                    ordered_ids(marks.take(i as int), primary_round),
                    blocks,
                ),
            decreases marks.len() - i,
        {
            let (pr, id) = self.ordered_marks[i];
            let ghost prev = out@;
            proof {
                assert(marks.take(i + 1).drop_last() =~= marks.take(i as int));
                lemma_blocks_for_push(ordered_ids(marks.take(i as int), primary_round), id, blocks);
            }
            if pr == primary_round {
                match self.get_block(id) {
                    Some(b) => {
                        out.push(b);
                        assert(out@.map_values(|b: Block| b@) =~= prev.map_values(|b: Block| b@).push(
                            blocks[id],
                        ));
                    },
                    None => {},
                }
            }
            i = i + 1;
        }
        proof {
            assert(marks.take(i as int) =~= marks);
            if !ordered_map(marks).contains_key(primary_round) {
                assert forall|k: int| 0 <= k < marks.len() implies marks[k].0 != primary_round by {}
                lemma_ordered_ids_absent(marks, primary_round);
            }
        }
        out
    }

    /// The number of stored blocks of primary round `primary_round`.
    pub fn count_blocks_for_primary_round(&self, primary_round: Round) -> (n: u64)
        requires
            self.wf(),
        ensures
            n == ids_in_primary_round(self@.blocks, primary_round).len(),
    {
        let ghost s = self.id_to_block@;
        let ghost pairs = block_pairs(s);
        let ghost counted: Set<HashValue> = Set::empty();
        let mut n: u64 = 0;
        let mut i: usize = 0;
        while i < self.id_to_block.len()
            invariant
                self.wf(),
                s == self.id_to_block@,
                pairs == block_pairs(s),
                i <= s.len(),
                n <= i,
                counted.finite(),
                counted.len() == n,
                forall|id: HashValue| #![auto]
                    counted.contains(id) <==> exists|k: int|
                        0 <= k < i && s[k].id == id && s[k]@.primary_round() == Some(primary_round),
            decreases s.len() - i,
        {
            let pr = self.id_to_block[i].block_data().primary_round();
            if pr == Some(primary_round) {
                proof {
                    let id = s[i as int].id;
                    assert(!counted.contains(id)) by {
                        if counted.contains(id) {
                            let k = choose|k: int|
                                0 <= k < i && s[k].id == id && s[k]@.primary_round() == Some(primary_round);
                            assert(pairs[k].0 == pairs[i as int].0);
                        }
                    }
                    counted = counted.insert(id);
                }
                n = n + 1;
            }
            i = i + 1;
        }
        proof {
            let target = ids_in_primary_round(self@.blocks, primary_round);
            assert forall|id: HashValue| counted.contains(id) <==> target.contains(id) by {
                lemma_block_pairs_contains(s, id);
                crate::pair_map::lemma_pairs_lookup(pairs, id);
                if counted.contains(id) {
                    let k = choose|k: int|
                        0 <= k < s.len() && s[k].id == id && s[k]@.primary_round() == Some(primary_round);
                    crate::pair_map::lemma_pairs_index(pairs, k);
                }
                if target.contains(id) {
                    let k = crate::pair_map::key_index(pairs, id)->0;
                    assert(pairs[k] == (s[k].id, s[k]@));
                }
            }
            assert(counted =~= target);
        }
        n
    }

    /// Raises the highest proxy certificate to `qc` if `qc` certifies a higher round.
    pub fn update_highest_proxy_qc(&mut self, qc: QuorumCert)
        requires
            old(self).wf(),
        ensures
            final(self).wf(),
            final(self)@ == old(self)@.with_proxy_qc(qc),
    {
        if qc.certified_block().round() > self.highest_proxy_qc.certified_block().round() {
            self.highest_proxy_qc = qc;
        }
    }

    /// Raises the highest proxy ordering certificate to `cert` if there is
    /// none or `cert` commits a higher round.
    pub fn update_highest_proxy_ordered_cert(&mut self, cert: WrappedLedgerInfo)
        requires
            old(self).wf(),
        ensures
            final(self).wf(),
            final(self)@ == old(self)@.with_proxy_ordered_cert(cert),
    {
        let should_update = match &self.highest_proxy_ordered_cert {
            Some(existing) => cert.commit_info().round() > existing.commit_info().round(),
            None => true,
        };
        if should_update {
            self.highest_proxy_ordered_cert = Some(cert);
        }
    }

    /// Raises the highest proxy timeout certificate to `tc` if there is none
    /// or `tc` is for a higher round.
    pub fn update_highest_proxy_timeout_cert(&mut self, tc: TwoChainTimeoutCertificate)
        requires
            old(self).wf(),
        ensures
            final(self).wf(),
            final(self)@ == old(self)@.with_proxy_timeout_cert(tc),
    {
        let should_update = match &self.highest_proxy_timeout_cert {
            Some(existing) => tc.round() > existing.round(),
            None => true,
        };
        if should_update {
            self.highest_proxy_timeout_cert = Some(tc);
        }
    }

    /// Raises the highest primary certificate to `qc` if `qc` certifies a higher round.
    pub fn update_highest_primary_qc(&mut self, qc: QuorumCert)
        requires
            old(self).wf(),
        ensures
            final(self).wf(),
            final(self)@ == old(self)@.with_primary_qc(qc),
    {
        if qc.certified_block().round() > self.highest_primary_qc.certified_block().round() {
            self.highest_primary_qc = qc;
        }
    }

    /// Raises the highest primary timeout certificate to `tc` if there is
    /// none or `tc` is for a higher round.
    pub fn update_highest_primary_tc(&mut self, tc: TwoChainTimeoutCertificate)
        requires
            old(self).wf(),
        ensures
            final(self).wf(),
            final(self)@ == old(self)@.with_primary_tc(tc),
    {
        let should_update = match &self.highest_primary_tc {
            Some(existing) => tc.round() > existing.round(),
            None => true,
        };
        if should_update {
            self.highest_primary_tc = Some(tc);
        }
    }

    /// The current primary round: one above the highest primary certificate
    /// or timeout certificate round.
    pub fn current_primary_round(&self) -> (r: Round)
        requires
            self@.current_primary_round() <= u64::MAX,
        ensures
            r == self@.current_primary_round(),
    {
        let qc_round = self.highest_primary_qc.certified_block().round();
        let tc_round = match &self.highest_primary_tc {
            Some(tc) => tc.round(),
            None => 0,
        };
        let highest = if qc_round >= tc_round {
            qc_round
        } else {
            tc_round
        };
        highest + 1
    }

    /// The highest proxy certificate.
    pub fn highest_proxy_qc(&self) -> (q: QuorumCert)
        ensures
            q == self@.highest_proxy_qc,
    {
        self.highest_proxy_qc
    }

    /// The highest primary certificate.
    pub fn highest_primary_qc(&self) -> (q: QuorumCert)
        ensures
            q == self@.highest_primary_qc,
    {
        self.highest_primary_qc
    }

    /// The highest primary timeout certificate.
    pub fn highest_primary_tc(&self) -> (t: Option<TwoChainTimeoutCertificate>)
        ensures
            t == self@.highest_primary_tc,
    {
        self.highest_primary_tc
    }

    /// The synchronization info of the store: its highest certificates.
    pub fn proxy_sync_info(&self) -> (s: ProxySyncInfo)
        ensures
            s == (ProxySyncInfo {
                highest_proxy_qc: self@.highest_proxy_qc,
                highest_proxy_ordered_cert: self@.highest_proxy_ordered_cert,
                highest_proxy_timeout_cert: self@.highest_proxy_timeout_cert,
                highest_primary_qc: self@.highest_primary_qc,
                highest_primary_tc: self@.highest_primary_tc,
            }),
    {
        ProxySyncInfo::new(
            self.highest_proxy_qc,
            self.highest_proxy_ordered_cert,
            self.highest_proxy_timeout_cert,
            self.highest_primary_qc,
            self.highest_primary_tc,
        )
    }

    /// Removes all blocks, round entries and ordering marks; the genesis and
    /// the certificates stay.
    pub fn clear(&mut self)
        requires
            old(self).wf(),
        ensures
            final(self).wf(),
            final(self)@ == old(self)@.cleared(),
    {
        self.id_to_block.clear();
        self.round_to_id.clear();
        self.ordered_marks.clear();
        assert(block_pairs(self.id_to_block@) =~= Seq::empty());
        assert(self@.blocks =~= Map::empty());
        assert(self@.round_to_id =~= Map::empty());
        assert(self@.ordered =~= Map::empty());
    }

    /// Removes the blocks of rounds up to and including `round`, and the round
    /// entries of those rounds; the ordering marks stay.
    pub fn prune_blocks_to_round(&mut self, round: Round)
        requires
            old(self).wf(),
        ensures
            final(self).wf(),
            final(self)@ == old(self)@.pruned(round),
    {
        let ghost old_view = self@;
        let ghost old_rounds = self.round_to_id@;
        let ghost keep_round = |r: Round| r > round;
        let mut kept: Vec<(Round, HashValue)> = Vec::new();
        let mut i: usize = 0;
        while i < self.round_to_id.len()
            invariant
                old_rounds == self.round_to_id@,
                i <= old_rounds.len(),
                keep_round == (|r: Round| r > round),
                kept@ == filter_keys(old_rounds.take(i as int), keep_round),
            decreases old_rounds.len() - i,
        {
            let (r, id) = self.round_to_id[i];
            proof {
                assert(old_rounds.take(i + 1).drop_last() =~= old_rounds.take(i as int));
            }
            if r > round {
                kept.push((r, id));
            }
            i = i + 1;
        }
        proof {
            assert(old_rounds.take(i as int) =~= old_rounds);
            lemma_filter_keys(old_rounds, keep_round);
        }
        let ghost old_blocks = self.id_to_block@;
        let ghost bp = block_pairs(old_blocks);
        let ghost keep_block = |id: HashValue| old_view.blocks[id].round() > round;
        let mut kept_blocks: Vec<Block> = Vec::new();
        let mut j: usize = 0;
        while j < self.id_to_block.len()
            invariant
                old_blocks == self.id_to_block@,
                bp == block_pairs(old_blocks),
                keys_unique(bp),
                old_view.blocks == pairs_to_map(bp),
                j <= old_blocks.len(),
                keep_block == (|id: HashValue| old_view.blocks[id].round() > round),
                block_pairs(kept_blocks@) == filter_keys(bp.take(j as int), keep_block),
            decreases old_blocks.len() - j,
        {
            proof {
                assert(bp.take(j + 1).drop_last() =~= bp.take(j as int));
                assert(bp.take(j + 1).last() == (old_blocks[j as int].id, old_blocks[j as int]@));
                crate::pair_map::lemma_pairs_index(bp, j as int);
                assert(bp[j as int] == (old_blocks[j as int].id, old_blocks[j as int]@));
            }
            if self.id_to_block[j].round() > round {
                let ghost prev = kept_blocks@;
                let b = self.id_to_block[j].clone();
                kept_blocks.push(b);
                assert(block_pairs(kept_blocks@) =~= block_pairs(prev).push(
                    (old_blocks[j as int].id, old_blocks[j as int]@),
                ));
            }
            j = j + 1;
        }
        proof {
            assert(bp.take(j as int) =~= bp);
            lemma_filter_keys(bp, keep_block);
        }
        self.round_to_id = kept;
        self.id_to_block = kept_blocks;
        proof {
            let nb = pairs_to_map(block_pairs(self.id_to_block@));
            assert(nb =~= old_view.blocks.restrict(old_view.ids_above_round(round)));
            let nr = pairs_to_map(self.round_to_id@);
            assert(nr =~= old_view.round_to_id.restrict(Set::new(|r: Round| r > round)));
        }
    }
}

/// A primary round that no mark names has no ordered identifiers.
proof fn lemma_ordered_ids_absent(s: Seq<(Round, HashValue)>, pr: Round)
    requires
        forall|i: int| 0 <= i < s.len() ==> s[i].0 != pr,
    ensures
        ordered_ids(s, pr) == Seq::<HashValue>::empty(),
    decreases s.len(),
{
    if s.len() > 0 {
        lemma_ordered_ids_absent(s.drop_last(), pr);
    }
}

/// Read access to a proxy block store.
pub trait ProxyBlockReader {
    /// The model of the store read.
    spec fn reader_view(&self) -> ProxyBlockStoreView;

    /// Whether the store read is well formed.
    spec fn reader_wf(&self) -> bool;

    /// The stored proxy block with identifier `block_id`, if any.
    fn get_proxy_block(&self, block_id: HashValue) -> (r: Option<Block>)
        requires
            self.reader_wf(),
        ensures
            match r {
                Some(b) => self.reader_view().blocks.contains_key(block_id) && b@
                    == self.reader_view().blocks[block_id],
                None => !self.reader_view().blocks.contains_key(block_id),
            },
    ;

    /// The highest proxy certificate.
    fn highest_proxy_qc(&self) -> (q: QuorumCert)
        ensures
            q == self.reader_view().highest_proxy_qc,
    ;

    /// The highest primary certificate.
    fn highest_primary_qc(&self) -> (q: QuorumCert)
        ensures
            q == self.reader_view().highest_primary_qc,
    ;

    /// The highest primary timeout certificate.
    fn highest_primary_tc(&self) -> (t: Option<TwoChainTimeoutCertificate>)
        ensures
            t == self.reader_view().highest_primary_tc,
    ;

    /// The current primary round: one above the highest primary certificate
    /// or timeout certificate round.
    fn current_primary_round(&self) -> (r: Round)
        requires
            self.reader_view().current_primary_round() <= u64::MAX,
        ensures
            r == self.reader_view().current_primary_round(),
    ;

    /// The synchronization info of the store: its highest certificates.
    fn proxy_sync_info(&self) -> (s: ProxySyncInfo)
        ensures
            s == (ProxySyncInfo {
                highest_proxy_qc: self.reader_view().highest_proxy_qc,
                highest_proxy_ordered_cert: self.reader_view().highest_proxy_ordered_cert,
                highest_proxy_timeout_cert: self.reader_view().highest_proxy_timeout_cert,
                highest_primary_qc: self.reader_view().highest_primary_qc,
                highest_primary_tc: self.reader_view().highest_primary_tc,
            }),
    ;

    /// The blocks ordered for `primary_round`, in the order they were marked.
    fn get_ordered_proxy_blocks(&self, primary_round: Round) -> (r: Vec<Block>)
        requires
            self.reader_wf(),
        ensures
            r@.map_values(|b: Block| b@) == self.reader_view().ordered_blocks(primary_round),
    ;
}

impl ProxyBlockReader for ProxyBlockStore {
    open spec fn reader_view(&self) -> ProxyBlockStoreView {
        self@
    }

    open spec fn reader_wf(&self) -> bool {
        self.wf()
    }

    fn get_proxy_block(&self, block_id: HashValue) -> (r: Option<Block>) {
        self.get_block(block_id)
    }

    fn highest_proxy_qc(&self) -> (q: QuorumCert) {
        ProxyBlockStore::highest_proxy_qc(self)
    }

    fn highest_primary_qc(&self) -> (q: QuorumCert) {
        ProxyBlockStore::highest_primary_qc(self)
    }

    fn highest_primary_tc(&self) -> (t: Option<TwoChainTimeoutCertificate>) {
        ProxyBlockStore::highest_primary_tc(self)
    }

    fn current_primary_round(&self) -> (r: Round) {
        ProxyBlockStore::current_primary_round(self)
    }

    fn proxy_sync_info(&self) -> (s: ProxySyncInfo) {
        ProxyBlockStore::proxy_sync_info(self)
    }

    fn get_ordered_proxy_blocks(&self, primary_round: Round) -> (r: Vec<Block>) {
        self.get_ordered_blocks(primary_round)
    }
}

/// A store holds finitely many blocks.
pub proof fn lemma_store_blocks_finite(store: &ProxyBlockStore)
    ensures
        store@.blocks.dom().finite(),
{
    lemma_pairs_finite(block_pairs(store.id_to_block@));
}

/// Inserting a proxy block of primary round `p` into a store of finitely many
/// blocks keeps it finite and adds one to the count of primary round `p`,
/// unless a block of that round was already stored under the same identifier.
pub proof fn lemma_count_after_insert(v: ProxyBlockStoreView, b: BlockView, p: Round)
    requires
        v.blocks.dom().finite(),
        b.primary_round() == Some(p),
    ensures
        v.with_block(b).blocks.dom().finite(),
        ids_in_primary_round(v.with_block(b).blocks, p).len() == ids_in_primary_round(v.blocks, p).len()
            + if ids_in_primary_round(v.blocks, p).contains(b.id) {
            0int
        } else {
            1int
        },
        !v.blocks.contains_key(b.id) ==> ids_in_primary_round(v.with_block(b).blocks, p).len()
            == ids_in_primary_round(v.blocks, p).len() + 1,
        v.blocks.contains_key(b.id) && v.blocks[b.id].primary_round() == Some(p)
            ==> ids_in_primary_round(v.with_block(b).blocks, p).len() == ids_in_primary_round(
            v.blocks,
            p,
        ).len(),
{
    let old_ids = ids_in_primary_round(v.blocks, p);
    let new_ids = ids_in_primary_round(v.with_block(b).blocks, p);
    assert(new_ids =~= old_ids.insert(b.id));
    assert(old_ids.finite()) by {
        assert(old_ids =~= v.blocks.dom().intersect(
            Set::new(|id: HashValue| v.blocks[id].primary_round() == Some(p)),
        ));
    }
}

/// The current primary round is one above the larger of the highest primary
/// certificate's round and the highest primary timeout certificate's round
/// (zero without one): it exceeds both, and equals one of them plus one.
pub proof fn lemma_current_primary_round_is_max_plus_one(v: ProxyBlockStoreView)
    ensures
        ({
            let q: int = v.highest_primary_qc.vote_data.proposed.round as int;
            let t: int = match v.highest_primary_tc {
                Some(tc) => tc.round as int,
                None => 0,
            };
            &&& v.current_primary_round() > q
            &&& v.current_primary_round() > t
            &&& (v.current_primary_round() == q + 1 || v.current_primary_round() == t + 1)
        }),
{
}

/// Reading after inserting: the inserted block is found under its identifier
/// and under its round, and every other block and round entry is as before.
pub proof fn lemma_read_after_insert(v: ProxyBlockStoreView, b: BlockView)
    ensures
        v.with_block(b).blocks.contains_key(b.id),
        v.with_block(b).blocks[b.id] == b,
        v.with_block(b).round_to_id.contains_key(b.round()),
        v.with_block(b).round_to_id[b.round()] == b.id,
        forall|id: HashValue|
            id != b.id ==> (#[trigger] v.with_block(b).blocks.contains_key(id) == v.blocks.contains_key(id)
                && v.with_block(b).blocks[id] == v.blocks[id]),
        v.with_block(b).genesis_primary_block_id == v.genesis_primary_block_id,
        v.with_block(b).ordered == v.ordered,
{
}

/// Marking a stored block ordered appends it to the ordered blocks of its
/// primary round and leaves the other primary rounds as they were.
pub proof fn lemma_mark_then_ordered_blocks(v: ProxyBlockStoreView, id: HashValue, pr: Round, other: Round)
    requires
        v.blocks.contains_key(id),
        other != pr,
    ensures
        v.with_ordered_mark(id, pr).ordered_blocks(pr) == v.ordered_blocks(pr).push(v.blocks[id]),
        v.with_ordered_mark(id, pr).ordered_blocks(other) == v.ordered_blocks(other),
{
    lemma_blocks_for_push(v.ordered_ids_of(pr), id, v.blocks);
}

/// Offering certificates never lowers the highest certificates, nor the
/// current primary round; a primary certificate or timeout certificate lifts
/// the current primary round above its own round.
pub proof fn lemma_certificates_monotone(
    v: ProxyBlockStoreView,
    qc: QuorumCert,
    tc: TwoChainTimeoutCertificate,
    cert: WrappedLedgerInfo,
)
    ensures
        v.with_primary_qc(qc).current_primary_round() >= v.current_primary_round(),
        v.with_primary_qc(qc).current_primary_round() >= qc.vote_data.proposed.round + 1,
        v.with_primary_tc(tc).current_primary_round() >= v.current_primary_round(),
        v.with_primary_tc(tc).current_primary_round() >= tc.round + 1,
        v.with_proxy_qc(qc).highest_proxy_qc.vote_data.proposed.round
            >= v.highest_proxy_qc.vote_data.proposed.round,
        v.with_proxy_timeout_cert(tc).highest_proxy_timeout_cert is Some,
        opt_tc_round(v.with_proxy_timeout_cert(tc).highest_proxy_timeout_cert) >= opt_tc_round(
            v.highest_proxy_timeout_cert,
        ),
        v.with_proxy_ordered_cert(cert).highest_proxy_ordered_cert is Some,
        v.highest_proxy_ordered_cert matches Some(c) ==> (v.with_proxy_ordered_cert(
            cert,
        ).highest_proxy_ordered_cert->0).ledger_info.commit_info.round >= c.ledger_info.commit_info.round,
{
}

/// Clearing forgets every block, round entry and ordering mark, and keeps the
/// genesis and the certificates.
pub proof fn lemma_clear_forgets_blocks(v: ProxyBlockStoreView, id: HashValue, pr: Round)
    ensures
        !v.cleared().blocks.contains_key(id),
        v.cleared().ordered_blocks(pr) == Seq::<BlockView>::empty(),
        v.cleared().genesis_primary_block_id == v.genesis_primary_block_id,
        v.cleared().highest_proxy_qc == v.highest_proxy_qc,
        v.cleared().highest_primary_qc == v.highest_primary_qc,
        v.cleared().highest_primary_tc == v.highest_primary_tc,
{
}

/// Pruning up to a round removes every block of that round or an earlier
/// one and every round entry up to it, and keeps every later block and
/// round entry as it was.
pub proof fn lemma_prune_removes_rounds(v: ProxyBlockStoreView, round: Round, r: Round, id: HashValue)
    ensures
        r <= round ==> !v.pruned(round).round_to_id.contains_key(r),
        r > round && v.round_to_id.contains_key(r) ==> v.pruned(round).round_to_id.contains_key(r)
            && v.pruned(round).round_to_id[r] == v.round_to_id[r],
        v.blocks.contains_key(id) && v.blocks[id].round() <= round ==> !v.pruned(
            round,
        ).blocks.contains_key(id),
        v.blocks.contains_key(id) && v.blocks[id].round() > round ==> v.pruned(
            round,
        ).blocks.contains_key(id) && v.pruned(round).blocks[id] == v.blocks[id],
        !v.blocks.contains_key(id) ==> !v.pruned(round).blocks.contains_key(id),
{
}

/// The genesis of a store never changes: no operation on the store touches it.
pub proof fn lemma_genesis_is_fixed(
    v: ProxyBlockStoreView,
    b: BlockView,
    id: HashValue,
    pr: Round,
    round: Round,
    qc: QuorumCert,
    tc: TwoChainTimeoutCertificate,
    cert: WrappedLedgerInfo,
)
    ensures
        v.with_block(b).genesis_primary_block_id == v.genesis_primary_block_id,
        v.with_ordered_mark(id, pr).genesis_primary_block_id == v.genesis_primary_block_id,
        v.pruned(round).genesis_primary_block_id == v.genesis_primary_block_id,
        v.cleared().genesis_primary_block_id == v.genesis_primary_block_id,
        v.with_proxy_qc(qc).genesis_primary_block_id == v.genesis_primary_block_id,
        v.with_proxy_ordered_cert(cert).genesis_primary_block_id == v.genesis_primary_block_id,
        v.with_proxy_timeout_cert(tc).genesis_primary_block_id == v.genesis_primary_block_id,
        v.with_primary_qc(qc).genesis_primary_block_id == v.genesis_primary_block_id,
        v.with_primary_tc(tc).genesis_primary_block_id == v.genesis_primary_block_id,
{
}

} // verus!
