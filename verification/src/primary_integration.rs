//! Aggregation of ordered proxy blocks into the content of a primary block.
//!
//! All primaries that receive the same ordered proxy blocks form the same
//! aggregate: its content and its aggregated hash are functions of the
//! message alone.
use crate::hashing::{aggregated_hash, block_ids_bytes, finish_hash, seeded_buffer};
use crate::proxy_error::ProxyConsensusError;
use crate::proxy_messages::{OrderedProxyBlocksMsg, OrderedProxyBlocksMsgView, blocks_view};
use crate::text::{decimal, hash_hex, push_decimal, push_hash_hex};
use crate::types::{Block, BlockView, HashValue, Payload, QuorumCert, Round, ValidatorTransaction};
use vstd::string::StringExecFns;
use vstd::prelude::*;

verus! {

/// The index of the first block whose primary round is not `r` (it is not a
/// proxy block, or it belongs to another primary round).
pub open spec fn first_round_mismatch(blocks: Seq<BlockView>, r: Round) -> Option<int>
    decreases blocks.len(),
{
    if blocks.len() == 0 {
        None
    } else {
        match first_round_mismatch(blocks.drop_last(), r) {
            Some(i) => Some(i),
            None => if blocks.last().primary_round() == Some(r) {
                None
            } else {
                Some(blocks.len() - 1)
            },
        }
    }
}

/// The index of the first block whose parent is not the block before it.
pub open spec fn first_unlinked(blocks: Seq<BlockView>) -> Option<int>
    decreases blocks.len(),
{
    if blocks.len() <= 1 {
        None
    } else {
        match first_unlinked(blocks.drop_last()) {
            Some(i) => Some(i),
            None => if blocks.last().parent_id() == blocks[blocks.len() - 2].id {
                None
            } else {
                Some(blocks.len() - 1)
            },
        }
    }
}

/// A finding on the prefix of a sequence of blocks stands for the whole sequence.
proof fn lemma_first_round_mismatch_prefix(blocks: Seq<BlockView>, r: Round, k: int)
    requires
        0 <= k <= blocks.len(),
        first_round_mismatch(blocks.take(k), r) is Some,
    ensures
        first_round_mismatch(blocks, r) == first_round_mismatch(blocks.take(k), r),
    decreases blocks.len() - k,
{
    if k < blocks.len() {
        assert(blocks.take(k + 1).drop_last() =~= blocks.take(k));
        lemma_first_round_mismatch_prefix(blocks, r, k + 1);
    } else {
        assert(blocks.take(k) =~= blocks);
    }
}

/// A finding on the prefix of a sequence of blocks stands for the whole sequence.
proof fn lemma_first_unlinked_prefix(blocks: Seq<BlockView>, k: int)
    requires
        0 <= k <= blocks.len(),
        first_unlinked(blocks.take(k)) is Some,
    ensures
        first_unlinked(blocks) == first_unlinked(blocks.take(k)),
    decreases blocks.len() - k,
{
    if k < blocks.len() {
        assert(blocks.take(k + 1).drop_last() =~= blocks.take(k));
        lemma_first_unlinked_prefix(blocks, k + 1);
    } else {
        assert(blocks.take(k) =~= blocks);
    }
}

/// The outcome of checking an ordered proxy blocks message, in the order the checks are made.
pub enum OrderedMsgCheck {
    /// The message holds no block.
    Empty,
    /// The first block out of the primary round is not a proxy block.
    NotProxyBlock,
    /// The first block out of the primary round is a proxy block of round `got`.
    WrongPrimaryRound { got: Round },
    /// The primary certificate does not certify the round before the primary round.
    QcRoundMismatch { expected: Round, got: Round },
    /// Block `index` does not extend the block before it.
    Unlinked { index: int },
    /// The last block carries no primary certificate.
    MissingPrimaryQc,
    /// All checks pass.
    Valid,
}

/// The round that a primary certificate must certify for primary round `r`:
/// the round before it (zero for round zero).
pub open spec fn expected_qc_round(r: Round) -> Round {
    if r == 0 {
        0
    } else {
        (r - 1) as Round
    }
}

/// The checks that an ordered proxy blocks message must pass to be aggregated.
pub open spec fn check_ordered_msg(msg: OrderedProxyBlocksMsgView) -> OrderedMsgCheck {
    let blocks = msg.proxy_blocks;
    if blocks.len() == 0 {
        OrderedMsgCheck::Empty
    } else {
        match first_round_mismatch(blocks, msg.primary_round) {
            Some(i) => match blocks[i].primary_round() {
                None => OrderedMsgCheck::NotProxyBlock,
                Some(got) => OrderedMsgCheck::WrongPrimaryRound { got },
            },
            None => {
                let expected = expected_qc_round(msg.primary_round);
                let got = msg.primary_qc.vote_data.proposed.round;
                if got != expected {
                    OrderedMsgCheck::QcRoundMismatch { expected, got }
                } else {
                    match first_unlinked(blocks) {
                        Some(i) => OrderedMsgCheck::Unlinked { index: i },
                        None => if blocks.last().primary_qc() is None {
                            OrderedMsgCheck::MissingPrimaryQc
                        } else {
                            OrderedMsgCheck::Valid
                        },
                    }
                }
            },
        }
    }
}

/// The message for block `index` whose parent `parent` is not block
/// `prev_index`, of identifier `prev_id`.
pub open spec fn unlinked_message(index: nat, parent: HashValue, prev_index: nat, prev_id: HashValue) -> Seq<
    char,
> {
    "Proxy blocks not properly linked: block "@ + decimal(index) + " parent "@ + hash_hex(parent)
        + " != block "@ + decimal(prev_index) + " id "@ + hash_hex(prev_id)
}

/// Builds the message for two consecutive proxy blocks that are not linked.
fn unlinked_blocks_message(index: usize, parent: HashValue, prev_index: usize, prev_id: HashValue) -> (m:
    String)
    ensures
        m@ == unlinked_message(index as nat, parent, prev_index as nat, prev_id),
{
    let mut m = String::new();
    m.append("Proxy blocks not properly linked: block ");
    push_decimal(&mut m, index as u64);
    m.append(" parent ");
    push_hash_hex(&mut m, parent);
    m.append(" != block ");
    push_decimal(&mut m, prev_index as u64);
    m.append(" id ");
    push_hash_hex(&mut m, prev_id);
    assert(m@ =~= unlinked_message(index as nat, parent, prev_index as nat, prev_id));
    m
}

/// The aggregated hash of a sequence of proxy blocks: the domain-separated
/// hash of their identifiers, in order.
pub fn compute_aggregated_hash(proxy_blocks: &Vec<Block>) -> (h: HashValue)
    ensures
        h == aggregated_hash(blocks_view(proxy_blocks@)),
{
    let mut buf = seeded_buffer("AggregatedProxyBlocks");
    let ghost seed = buf@;
    let mut i: usize = 0;
    while i < proxy_blocks.len()
        invariant
            i <= proxy_blocks@.len(),
            buf@ == seed + block_ids_bytes(blocks_view(proxy_blocks@).take(i as int)),
        decreases proxy_blocks@.len() - i,
    {
        let id = proxy_blocks[i].id().to_vec();
        let ghost before = buf@;
        crate::hashing::append_bytes(&mut buf, id.as_slice());
        proof {
            let s = blocks_view(proxy_blocks@);
            assert(s.take(i + 1).drop_last() =~= s.take(i as int));
            assert(s.take(i + 1).last() == proxy_blocks@[i as int]@);
            assert(buf@ =~= seed + block_ids_bytes(s.take(i + 1)));
        }
        i = i + 1;
    }
    assert(blocks_view(proxy_blocks@).take(i as int) =~= blocks_view(proxy_blocks@));
    finish_hash(&buf)
}

/// The total transaction count of a sequence of blocks.
pub open spec fn total_txns(blocks: Seq<BlockView>) -> int
    decreases blocks.len(),
{
    if blocks.len() == 0 {
        0
    } else {
        total_txns(blocks.drop_last()) + match blocks.last().payload() {
            Some(p) => p.num_txns as int,
            None => 0,
        }
    }
}

/// The validator transactions of a sequence of blocks, in order.
pub open spec fn all_validator_txns(blocks: Seq<BlockView>) -> Seq<ValidatorTransaction>
    decreases blocks.len(),
{
    if blocks.len() == 0 {
        Seq::empty()
    } else {
        all_validator_txns(blocks.drop_last()) + match blocks.last().validator_txns() {
            Some(t) => t,
            None => Seq::empty(),
        }
    }
}

/// Whether a block carries at least one validator transaction.
pub open spec fn has_vtxns(b: BlockView) -> bool {
    match b.validator_txns() {
        Some(t) => t.len() > 0,
        None => false,
    }
}

/// Aggregated proxy blocks ready to be included in a primary block.
#[derive(Debug)]
pub struct PrimaryBlockFromProxy {
    proxy_blocks: Vec<Block>,
    primary_round: Round,
    primary_qc: QuorumCert,
    aggregated_payload_hash: HashValue,
}

/// The model of a [`PrimaryBlockFromProxy`].
pub struct PrimaryBlockFromProxyView {
    pub proxy_blocks: Seq<BlockView>,
    pub primary_round: Round,
    pub primary_qc: QuorumCert,
    pub aggregated_payload_hash: HashValue,
}

impl View for PrimaryBlockFromProxy {
    type V = PrimaryBlockFromProxyView;

    closed spec fn view(&self) -> PrimaryBlockFromProxyView {
        PrimaryBlockFromProxyView {
            proxy_blocks: blocks_view(self.proxy_blocks@),
            primary_round: self.primary_round,
            primary_qc: self.primary_qc,
            aggregated_payload_hash: self.aggregated_payload_hash,
        }
    }
}

impl PrimaryBlockFromProxy {
    /// The aggregated hash is always that of the blocks held.
    #[verifier::type_invariant]
    spec fn hash_matches_blocks(self) -> bool {
        self.aggregated_payload_hash == aggregated_hash(blocks_view(self.proxy_blocks@))
    }

    /// Checks an ordered proxy blocks message and aggregates its blocks.
    ///
    /// The checks, in order: the message holds a block; every block is a proxy
    /// block of the message's primary round; the primary certificate certifies
    /// the round before the primary round; each block extends the one before
    /// it; the last block carries a primary certificate. Signatures are not
    /// checked here.
    pub fn from_ordered_msg(msg: OrderedProxyBlocksMsg) -> (res: Result<
        PrimaryBlockFromProxy,
        ProxyConsensusError,
    >)
        ensures
            match check_ordered_msg(msg@) {
                OrderedMsgCheck::Valid => res matches Ok(p) && p@ == (PrimaryBlockFromProxyView {
                    proxy_blocks: msg@.proxy_blocks,
                    primary_round: msg@.primary_round,
                    primary_qc: msg@.primary_qc,
                    aggregated_payload_hash: aggregated_hash(msg@.proxy_blocks),
                }),
                OrderedMsgCheck::WrongPrimaryRound { got } => res matches Err(
                    ProxyConsensusError::InvalidPrimaryRound { expected: e, got: g },
                ) && e == msg@.primary_round && g == got,
                OrderedMsgCheck::QcRoundMismatch { expected, got } => res matches Err(
                    ProxyConsensusError::PrimaryQCRoundMismatch { expected: e, got: g },
                ) && e == expected && g == got,
                OrderedMsgCheck::Empty => res matches Err(ProxyConsensusError::InvalidProxyBlock(s))
                    && s@ == "OrderedProxyBlocksMsg must contain at least one proxy block"@,
                OrderedMsgCheck::NotProxyBlock => res matches Err(
                    ProxyConsensusError::InvalidProxyBlock(s),
                ) && s@ == "Block is not a proxy block"@,
                OrderedMsgCheck::Unlinked { index } => res matches Err(
                    ProxyConsensusError::InvalidProxyBlock(s),
                ) && s@ == unlinked_message(
                    index as nat,
                    msg@.proxy_blocks[index].parent_id(),
                    (index - 1) as nat,
                    msg@.proxy_blocks[index - 1].id,
                ),
                OrderedMsgCheck::MissingPrimaryQc => res matches Err(
                    ProxyConsensusError::InvalidProxyBlock(s),
                ) && s@ == "Last proxy block must have primary QC attached"@,
            },
    {
        let ghost m = msg@;
        let OrderedProxyBlocksMsg { proxy_blocks, primary_round, primary_qc } = msg;
        let ghost blocks = blocks_view(proxy_blocks@);
        assert(blocks == m.proxy_blocks);

        if proxy_blocks.len() == 0 {
            return Err(
                ProxyConsensusError::InvalidProxyBlock(
                    "OrderedProxyBlocksMsg must contain at least one proxy block".to_string(),
                ),
            );
        }
        // Every block is a proxy block of the message's primary round.

        let mut i: usize = 0;
        while i < proxy_blocks.len()
            invariant
                i <= proxy_blocks@.len(),
                blocks == blocks_view(proxy_blocks@),
                m == msg@,
                m.proxy_blocks == blocks,
                m.primary_round == primary_round,
                m.primary_qc == primary_qc,
                blocks.len() > 0,
                first_round_mismatch(blocks.take(i as int), primary_round) is None,
            decreases proxy_blocks@.len() - i,
        {
            let block_primary_round = proxy_blocks[i].block_data().primary_round();
            proof {
                assert(blocks[i as int] == proxy_blocks@[i as int]@);
                assert(blocks.take(i + 1).drop_last() =~= blocks.take(i as int));
                assert(blocks.take(i + 1).last() == blocks[i as int]);
            }
            match block_primary_round {
                None => {
                    proof {
                        lemma_first_round_mismatch_prefix(blocks, primary_round, i + 1);
                        assert(first_round_mismatch(blocks, primary_round) == Some(i as int));
                        assert(check_ordered_msg(m) is NotProxyBlock);
                    }
                    return Err(
                        ProxyConsensusError::InvalidProxyBlock(
                            "Block is not a proxy block".to_string(),
                        ),
                    );
                },
                Some(r) => {
                    if r != primary_round {
                        proof {
                            lemma_first_round_mismatch_prefix(blocks, primary_round, i + 1);
                        }
                        return Err(
                            ProxyConsensusError::InvalidPrimaryRound {
                                expected: primary_round,
                                got: r,
                            },
                        );
                    }
                },
            }
            i = i + 1;
        }
        assert(blocks.take(i as int) =~= blocks);

        // The primary certificate certifies the round before the primary round.
        let expected_round = primary_round.saturating_sub(1);
        if primary_qc.certified_block().round() != expected_round {
            return Err(
                ProxyConsensusError::PrimaryQCRoundMismatch {
                    expected: expected_round,
                    got: primary_qc.certified_block().round(),
                },
            );
        }
        // Each block extends the block before it.

        let mut j: usize = 1;
        assert(blocks.take(1) =~= seq![blocks[0]]);
        while j < proxy_blocks.len()
            invariant
                1 <= j <= proxy_blocks@.len(),
                blocks == blocks_view(proxy_blocks@),
                m == msg@,
                m.proxy_blocks == blocks,
                m.primary_round == primary_round,
                m.primary_qc == primary_qc,
                first_round_mismatch(blocks, primary_round) is None,
                primary_qc.vote_data.proposed.round == expected_qc_round(primary_round),
                first_unlinked(blocks.take(j as int)) is None,
            decreases proxy_blocks@.len() - j,
        {
            let parent = proxy_blocks[j].parent_id();
            let prev = proxy_blocks[j - 1].id();
            proof {
                assert(blocks[j as int] == proxy_blocks@[j as int]@);
                assert(blocks[j - 1] == proxy_blocks@[j - 1]@);
                assert(blocks.take(j + 1).drop_last() =~= blocks.take(j as int));
                assert(blocks.take(j + 1).last() == blocks[j as int]);
                assert(blocks.take(j + 1)[j - 1] == blocks[j - 1]);
            }
            if parent != prev {
                proof {
                    lemma_first_unlinked_prefix(blocks, j + 1);
                    assert(first_unlinked(blocks) == Some(j as int));
                    assert(check_ordered_msg(m) is Unlinked);
                }
                return Err(
                    ProxyConsensusError::InvalidProxyBlock(
                        unlinked_blocks_message(j, parent, j - 1, prev),
                    ),
                );
            }
            j = j + 1;
        }
        assert(blocks.take(j as int) =~= blocks);

        // The last block carries a primary certificate.
        let last = proxy_blocks.len() - 1;
        if proxy_blocks[last].block_data().primary_qc().is_none() {
            return Err(
                ProxyConsensusError::InvalidProxyBlock(
                    "Last proxy block must have primary QC attached".to_string(),
                ),
            );
        }
        let aggregated_payload_hash = compute_aggregated_hash(&proxy_blocks);
        Ok(PrimaryBlockFromProxy { proxy_blocks, primary_round, primary_qc, aggregated_payload_hash })
    }

    /// The proxy blocks, in order.
    pub fn proxy_blocks(&self) -> (b: &[Block])
        ensures
            blocks_view(b@) == self@.proxy_blocks,
    {
        self.proxy_blocks.as_slice()
    }

    pub fn primary_round(&self) -> (r: Round)
        ensures
            r == self@.primary_round,
    {
        self.primary_round
    }

    pub fn primary_qc(&self) -> (q: &QuorumCert)
        ensures
            *q == self@.primary_qc,
    {
        &self.primary_qc
    }

    pub fn num_blocks(&self) -> (n: usize)
        ensures
            n == self@.proxy_blocks.len(),
    {
        self.proxy_blocks.len()
    }

    /// The aggregated hash: that of the identifiers of the blocks held, in order.
    pub fn aggregated_payload_hash(&self) -> (h: HashValue)
        ensures
            h == self@.aggregated_payload_hash,
            h == aggregated_hash(self@.proxy_blocks),
    {
        proof {
            use_type_invariant(self);
        }
        self.aggregated_payload_hash
    }

    /// The payload of the primary block: empty in this phase, whatever the
    /// proxy blocks carry.
    pub fn aggregate_payloads(&self) -> (p: Payload)
        ensures
            p.num_txns == 0,
    {
        Payload::empty()
    }

    /// The total number of transactions in the proxy blocks.
    pub fn total_txn_count(&self) -> (n: usize)
        requires
            total_txns(self@.proxy_blocks) <= usize::MAX,
        ensures
            n == total_txns(self@.proxy_blocks),
    {
        let ghost blocks = self@.proxy_blocks;
        let mut total: usize = 0;
        let mut i: usize = 0;
        while i < self.proxy_blocks.len()
            invariant
                i <= self.proxy_blocks@.len(),
                blocks == blocks_view(self.proxy_blocks@),
                total == total_txns(blocks.take(i as int)),
                total_txns(blocks) <= usize::MAX,
            decreases self.proxy_blocks@.len() - i,
        {
            proof {
                assert(blocks.take(i + 1).drop_last() =~= blocks.take(i as int));
                lemma_total_txns_prefix(blocks, i + 1);
            }
            match self.proxy_blocks[i].payload() {
                Some(p) => {
                    total = total + p.len();
                },
                None => {},
            }
            i = i + 1;
        }
        assert(blocks.take(i as int) =~= blocks);
        total
    }

    /// Whether any proxy block carries a validator transaction.
    pub fn has_validator_txns(&self) -> (b: bool)
        ensures
            b == exists|i: int| 0 <= i < self@.proxy_blocks.len() && has_vtxns(#[trigger] self@.proxy_blocks[i]),
    {
        let ghost blocks = self@.proxy_blocks;
        let mut i: usize = 0;
        while i < self.proxy_blocks.len()
            invariant
                i <= self.proxy_blocks@.len(),
                blocks == blocks_view(self.proxy_blocks@),
                forall|k: int| 0 <= k < i ==> !has_vtxns(#[trigger] blocks[k]),
            decreases self.proxy_blocks@.len() - i,
        {
            assert(blocks[i as int] == self.proxy_blocks@[i as int]@);
            match self.proxy_blocks[i].validator_txns() {
                Some(t) => {
                    if t.len() > 0 {
                        assert(self@.proxy_blocks[i as int].validator_txns() == Some(t@));
                        assert(has_vtxns(self@.proxy_blocks[i as int]));
                        return true;
                    }
                },
                None => {},
            }
            i = i + 1;
        }
        false
    }

    /// All validator transactions of the proxy blocks, in block order.
    pub fn validator_txns(&self) -> (v: Vec<ValidatorTransaction>)
        ensures
            v@ == all_validator_txns(self@.proxy_blocks),
    {
        let ghost blocks = self@.proxy_blocks;
        let mut out: Vec<ValidatorTransaction> = Vec::new();
        let mut i: usize = 0;
        while i < self.proxy_blocks.len()
            invariant
                i <= self.proxy_blocks@.len(),
                blocks == blocks_view(self.proxy_blocks@),
                out@ == all_validator_txns(blocks.take(i as int)),
            decreases self.proxy_blocks@.len() - i,
        {
            proof {
                assert(blocks.take(i + 1).drop_last() =~= blocks.take(i as int));
            }
            match self.proxy_blocks[i].validator_txns() {
                Some(t) => {
                    let mut k: usize = 0;
                    let ghost start = out@;
                    while k < t.len()
                        invariant
                            k <= t@.len(),
                            out@ == start + t@.subrange(0, k as int),
                        decreases t@.len() - k,
                    {
                        out.push(t[k]);
                        k = k + 1;
                        assert(out@ =~= start + t@.subrange(0, k as int));
                    }
                    assert(t@.subrange(0, k as int) =~= t@);
                },
                None => {
                    assert(out@ =~= out@ + Seq::<ValidatorTransaction>::empty());
                },
            }
            i = i + 1;
        }
        assert(blocks.take(i as int) =~= blocks);
        out
    }

    /// The identifier of the first proxy block, or the zero hash if there is none.
    pub fn first_block_id(&self) -> (h: HashValue)
        ensures
            h == if self@.proxy_blocks.len() == 0 {
                HashValue { hi: 0, lo: 0 }
            } else {
                self@.proxy_blocks[0].id
            },
    {
        if self.proxy_blocks.len() == 0 {
            HashValue::zero()
        } else {
            self.proxy_blocks[0].id()
        }
    }

    /// The identifier of the last proxy block, or the zero hash if there is none.
    pub fn last_block_id(&self) -> (h: HashValue)
        ensures
            h == if self@.proxy_blocks.len() == 0 {
                HashValue { hi: 0, lo: 0 }
            } else {
                self@.proxy_blocks.last().id
            },
    {
        if self.proxy_blocks.len() == 0 {
            HashValue::zero()
        } else {
            self.proxy_blocks[self.proxy_blocks.len() - 1].id()
        }
    }

    /// The timestamps of the first and the last proxy block (zero where there is none).
    pub fn timestamp_range(&self) -> (r: (u64, u64))
        ensures
            r == if self@.proxy_blocks.len() == 0 {
                (0u64, 0u64)
            } else {
                (
                    self@.proxy_blocks[0].block_data.timestamp_usecs,
                    self@.proxy_blocks.last().block_data.timestamp_usecs,
                )
            },
    {
        if self.proxy_blocks.len() == 0 {
            (0, 0)
        } else {
            (
                self.proxy_blocks[0].timestamp_usecs(),
                self.proxy_blocks[self.proxy_blocks.len() - 1].timestamp_usecs(),
            )
        }
    }
}

/// Transaction counts of a prefix never exceed those of the whole sequence.
proof fn lemma_total_txns_prefix(blocks: Seq<BlockView>, k: int)
    requires
        0 <= k <= blocks.len(),
    ensures
        0 <= total_txns(blocks.take(k)) <= total_txns(blocks),
    decreases blocks.len() - k,
{
    if k < blocks.len() {
        assert(blocks.take(k + 1).drop_last() =~= blocks.take(k));
        lemma_total_txns_nonneg(blocks.take(k));
        lemma_total_txns_prefix(blocks, k + 1);
    } else {
        assert(blocks.take(k) =~= blocks);
        lemma_total_txns_nonneg(blocks);
    }
}

proof fn lemma_total_txns_nonneg(blocks: Seq<BlockView>)
    ensures
        total_txns(blocks) >= 0,
    decreases blocks.len(),
{
    if blocks.len() > 0 {
        lemma_total_txns_nonneg(blocks.drop_last());
    }
}

/// Without a mismatch, every block is a proxy block of primary round `r`.
proof fn lemma_no_round_mismatch(blocks: Seq<BlockView>, r: Round)
    requires
        first_round_mismatch(blocks, r) is None,
    ensures
        forall|i: int| 0 <= i < blocks.len() ==> #[trigger] blocks[i].primary_round() == Some(r),
    decreases blocks.len(),
{
    if blocks.len() > 0 {
        let t = blocks.drop_last();
        lemma_no_round_mismatch(t, r);
        assert forall|i: int| 0 <= i < blocks.len() implies #[trigger] blocks[i].primary_round()
            == Some(r) by {
            if i < blocks.len() - 1 {
                assert(blocks[i] == t[i]);
            }
        }
    }
}

/// Without an unlinked block, every block extends the block before it.
proof fn lemma_no_unlinked(blocks: Seq<BlockView>)
    requires
        first_unlinked(blocks) is None,
    ensures
        forall|i: int| 0 < i < blocks.len() ==> #[trigger] blocks[i].parent_id() == blocks[i - 1].id,
    decreases blocks.len(),
{
    if blocks.len() > 1 {
        let t = blocks.drop_last();
        lemma_no_unlinked(t);
        assert forall|i: int| 0 < i < blocks.len() implies #[trigger] blocks[i].parent_id()
            == blocks[i - 1].id by {
            if i < blocks.len() - 1 {
                assert(blocks[i] == t[i]);
                assert(blocks[i - 1] == t[i - 1]);
            }
        }
    }
}

/// An accepted ordered proxy blocks message is a cut chain of one primary
/// round: it holds a block, every block is a proxy block of the message's
/// primary round, each block extends the one before it, the last block
/// carries a primary certificate, and the message's certificate certifies
/// the round before the primary round.
pub proof fn lemma_accepted_message_is_a_cut_chain(msg: OrderedProxyBlocksMsgView)
    requires
        check_ordered_msg(msg) is Valid,
    ensures
        msg.proxy_blocks.len() > 0,
        forall|i: int| 0 <= i < msg.proxy_blocks.len() ==> #[trigger] msg.proxy_blocks[i].primary_round()
            == Some(msg.primary_round),
        forall|i: int| 0 < i < msg.proxy_blocks.len() ==> #[trigger] msg.proxy_blocks[i].parent_id()
            == msg.proxy_blocks[i - 1].id,
        msg.proxy_blocks.last().primary_qc() is Some,
        msg.primary_qc.vote_data.proposed.round == expected_qc_round(msg.primary_round),
{
    lemma_no_round_mismatch(msg.proxy_blocks, msg.primary_round);
    lemma_no_unlinked(msg.proxy_blocks);
}

/// When every block is a proxy block of primary round `r`, there is no mismatch.
proof fn lemma_all_in_round_no_mismatch(blocks: Seq<BlockView>, r: Round)
    requires
        forall|i: int| 0 <= i < blocks.len() ==> #[trigger] blocks[i].primary_round() == Some(r),
    ensures
        first_round_mismatch(blocks, r) is None,
    decreases blocks.len(),
{
    if blocks.len() > 0 {
        let t = blocks.drop_last();
        assert forall|i: int| 0 <= i < t.len() implies #[trigger] t[i].primary_round() == Some(r) by {
            assert(t[i] == blocks[i]);
        }
        lemma_all_in_round_no_mismatch(t, r);
        assert(blocks.last() == blocks[blocks.len() - 1]);
    }
}

/// When every block extends the one before it, none is unlinked.
proof fn lemma_all_linked_none_unlinked(blocks: Seq<BlockView>)
    requires
        forall|i: int| 0 < i < blocks.len() ==> #[trigger] blocks[i].parent_id() == blocks[i - 1].id,
    ensures
        first_unlinked(blocks) is None,
    decreases blocks.len(),
{
    if blocks.len() > 1 {
        let t = blocks.drop_last();
        assert forall|i: int| 0 < i < t.len() implies #[trigger] t[i].parent_id() == t[i - 1].id by {
            assert(t[i] == blocks[i]);
            assert(t[i - 1] == blocks[i - 1]);
        }
        lemma_all_linked_none_unlinked(t);
        assert(blocks.last() == blocks[blocks.len() - 1]);
        assert(blocks[blocks.len() - 1].parent_id() == blocks[blocks.len() - 2].id);
    }
}

/// An ordered proxy blocks message is accepted exactly when it is a cut
/// chain of one primary round: it holds a block, every block is a proxy
/// block of the message's primary round, each block extends the one before
/// it, the last block carries a primary certificate, and the message's
/// certificate certifies the round before the primary round (round zero for
/// primary round zero).
pub proof fn lemma_message_accepted_iff_cut_chain(msg: OrderedProxyBlocksMsgView)
    ensures
        (check_ordered_msg(msg) is Valid) <==> {
            &&& msg.proxy_blocks.len() > 0
            &&& forall|i: int|
                0 <= i < msg.proxy_blocks.len() ==> #[trigger] msg.proxy_blocks[i].primary_round() == Some(
                    msg.primary_round,
                )
            &&& forall|i: int|
                0 < i < msg.proxy_blocks.len() ==> #[trigger] msg.proxy_blocks[i].parent_id()
                    == msg.proxy_blocks[i - 1].id
            &&& msg.proxy_blocks.last().primary_qc() is Some
            &&& msg.primary_qc.vote_data.proposed.round == if msg.primary_round == 0 {
                0
            } else {
                msg.primary_round - 1
            }
        },
        msg.proxy_blocks.len() == 0 ==> check_ordered_msg(msg) is Empty,
{
    if check_ordered_msg(msg) is Valid {
        lemma_accepted_message_is_a_cut_chain(msg);
    }
    if msg.proxy_blocks.len() > 0 && (forall|i: int|
        0 <= i < msg.proxy_blocks.len() ==> #[trigger] msg.proxy_blocks[i].primary_round() == Some(
            msg.primary_round,
        )) && (forall|i: int|
        0 < i < msg.proxy_blocks.len() ==> #[trigger] msg.proxy_blocks[i].parent_id()
            == msg.proxy_blocks[i - 1].id) {
        lemma_all_in_round_no_mismatch(msg.proxy_blocks, msg.primary_round);
        lemma_all_linked_none_unlinked(msg.proxy_blocks);
    }
}

/// The identifier bytes of two block sequences with the same identifiers agree.
proof fn lemma_block_ids_bytes_by_ids(s1: Seq<BlockView>, s2: Seq<BlockView>)
    requires
        s1.len() == s2.len(),
        forall|i: int| 0 <= i < s1.len() ==> #[trigger] s1[i].id == s2[i].id,
    ensures
        block_ids_bytes(s1) == block_ids_bytes(s2),
    decreases s1.len(),
{
    if s1.len() > 0 {
        let t1 = s1.drop_last();
        let t2 = s2.drop_last();
        assert forall|i: int| 0 <= i < t1.len() implies #[trigger] t1[i].id == t2[i].id by {
            assert(t1[i] == s1[i]);
            assert(t2[i] == s2[i]);
        }
        lemma_block_ids_bytes_by_ids(t1, t2);
        assert(s1.last().id == s2.last().id);
    }
}

/// The aggregated hash of proxy blocks depends on their identifiers, in
/// order, and on nothing else of the blocks: primaries that agree on the
/// ordered identifiers agree on the hash.
pub proof fn lemma_aggregated_hash_depends_on_ids(s1: Seq<BlockView>, s2: Seq<BlockView>)
    requires
        s1.len() == s2.len(),
        forall|i: int| 0 <= i < s1.len() ==> #[trigger] s1[i].id == s2[i].id,
    ensures
        aggregated_hash(s1) == aggregated_hash(s2),
{
    lemma_block_ids_bytes_by_ids(s1, s2);
}

/// Builds an aggregate from blocks and a primary certificate without
/// checking that the blocks are linked.
#[derive(Debug)]
pub struct PrimaryBlockFromProxyBuilder {
    proxy_blocks: Vec<Block>,
    primary_round: Round,
    primary_qc: Option<QuorumCert>,
}

/// The model of a [`PrimaryBlockFromProxyBuilder`].
pub struct PrimaryBlockFromProxyBuilderView {
    pub proxy_blocks: Seq<BlockView>,
    pub primary_round: Round,
    pub primary_qc: Option<QuorumCert>,
}

impl View for PrimaryBlockFromProxyBuilder {
    type V = PrimaryBlockFromProxyBuilderView;

    closed spec fn view(&self) -> PrimaryBlockFromProxyBuilderView {
        PrimaryBlockFromProxyBuilderView {
            proxy_blocks: blocks_view(self.proxy_blocks@),
            primary_round: self.primary_round,
            primary_qc: self.primary_qc,
        }
    }
}

impl PrimaryBlockFromProxyBuilder {
    /// A builder for `primary_round` with no block and no certificate.
    pub fn new(primary_round: Round) -> (b: Self)
        ensures
            b@ == (PrimaryBlockFromProxyBuilderView {
                proxy_blocks: Seq::empty(),
                primary_round,
                primary_qc: None,
            }),
    {
        let b = PrimaryBlockFromProxyBuilder { proxy_blocks: Vec::new(), primary_round, primary_qc: None };
        assert(b@.proxy_blocks =~= Seq::<BlockView>::empty());
        b
    }

    /// Appends a block.
    pub fn with_proxy_block(self, block: Block) -> (b: Self)
        ensures
            b@ == (PrimaryBlockFromProxyBuilderView {
                proxy_blocks: self@.proxy_blocks.push(block@),
                ..self@
            }),
    {
        let ghost old_view = self@;
        let mut s = self;
        s.proxy_blocks.push(block);
        assert(s@.proxy_blocks =~= old_view.proxy_blocks.push(block@));
        s
    }

    /// Sets the primary certificate.
    pub fn with_primary_qc(self, qc: QuorumCert) -> (b: Self)
        ensures
            b@ == (PrimaryBlockFromProxyBuilderView { primary_qc: Some(qc), ..self@ }),
    {
        let mut s = self;
        s.primary_qc = Some(qc);
        s
    }

    /// The aggregate of the blocks given, which needs a primary certificate.
    pub fn build(self) -> (res: Result<PrimaryBlockFromProxy, ProxyConsensusError>)
        ensures
            match self@.primary_qc {
                Some(qc) => res matches Ok(p) && p@ == (PrimaryBlockFromProxyView {
                    proxy_blocks: self@.proxy_blocks,
                    primary_round: self@.primary_round,
                    primary_qc: qc,
                    aggregated_payload_hash: aggregated_hash(self@.proxy_blocks),
                }),
                None => res matches Err(ProxyConsensusError::InvalidProxyBlock(s)) && s@
                    == "Primary QC required"@,
            },
    {
        let PrimaryBlockFromProxyBuilder { proxy_blocks, primary_round, primary_qc } = self;
        match primary_qc {
            None => Err(ProxyConsensusError::InvalidProxyBlock("Primary QC required".to_string())),
            Some(qc) => {
                let aggregated_payload_hash = compute_aggregated_hash(&proxy_blocks);
                Ok(
                    PrimaryBlockFromProxy {
                        proxy_blocks,
                        primary_round,
                        primary_qc: qc,
                        aggregated_payload_hash,
                    },
                )
            },
        }
    }
}

} // verus!
