//! The messages of proxy consensus.
use crate::types::{
    Author, Block, BlockInfo, BlockView, OrderVote, Payload, QuorumCert, Round,
    TwoChainTimeoutCertificate, ValidatorTransaction, Vote, WrappedLedgerInfo,
};
use vstd::prelude::*;

verus! {

/// The models of a sequence of blocks.
pub open spec fn blocks_view(blocks: Seq<Block>) -> Seq<BlockView> {
    blocks.map_values(|b: Block| b@)
}

/// Clones a vector of blocks.
pub fn clone_blocks(blocks: &Vec<Block>) -> (r: Vec<Block>)
    ensures
        blocks_view(r@) == blocks_view(blocks@),
{
    let mut r: Vec<Block> = Vec::new();
    let mut i: usize = 0;
    while i < blocks.len()
        invariant
            i <= blocks@.len(),
            r@.len() == i,
            forall|k: int| 0 <= k < i ==> r@[k]@ == blocks@[k]@,
        decreases blocks@.len() - i,
    {
        let c = blocks[i].clone();
        let ghost old_r = r@;
        r.push(c);
        i = i + 1;
    }
    assert(blocks_view(r@) =~= blocks_view(blocks@));
    r
}

/// The ordered proxy blocks of one primary round, with the primary
/// certificate that cut them; sent to all primaries.
#[derive(Debug)]
pub struct OrderedProxyBlocksMsg {
    pub proxy_blocks: Vec<Block>,
    pub primary_round: Round,
    pub primary_qc: QuorumCert,
}

/// The model of an [`OrderedProxyBlocksMsg`].
pub struct OrderedProxyBlocksMsgView {
    pub proxy_blocks: Seq<BlockView>,
    pub primary_round: Round,
    pub primary_qc: QuorumCert,
}

impl View for OrderedProxyBlocksMsg {
    type V = OrderedProxyBlocksMsgView;

    open spec fn view(&self) -> OrderedProxyBlocksMsgView {
        OrderedProxyBlocksMsgView {
            proxy_blocks: blocks_view(self.proxy_blocks@),
            primary_round: self.primary_round,
            primary_qc: self.primary_qc,
        }
    }
}

impl Clone for OrderedProxyBlocksMsg {
    fn clone(&self) -> (r: Self)
        ensures
            r@ == self@,
    {
        OrderedProxyBlocksMsg {
            proxy_blocks: clone_blocks(&self.proxy_blocks),
            primary_round: self.primary_round,
            primary_qc: self.primary_qc,
        }
    }
}

impl OrderedProxyBlocksMsg {
    pub fn new(proxy_blocks: Vec<Block>, primary_round: Round, primary_qc: QuorumCert) -> (m: Self)
        ensures
            m@ == (OrderedProxyBlocksMsgView {
                proxy_blocks: blocks_view(proxy_blocks@),
                primary_round,
                primary_qc,
            }),
    {
        OrderedProxyBlocksMsg { proxy_blocks, primary_round, primary_qc }
    }

    pub fn proxy_blocks(&self) -> (b: &Vec<Block>)
        ensures
            blocks_view(b@) == self@.proxy_blocks,
    {
        &self.proxy_blocks
    }

    pub fn primary_round(&self) -> (r: Round)
        ensures
            r == self.primary_round,
    {
        self.primary_round
    }

    pub fn primary_qc(&self) -> (q: QuorumCert)
        ensures
            q == self.primary_qc,
    {
        self.primary_qc
    }
}

/// The certificates a proxy knows of, of both layers, for synchronizing peers.
#[derive(Clone, Copy, Debug, PartialEq, Eq, Structural)]
pub struct ProxySyncInfo {
    pub highest_proxy_qc: QuorumCert,
    pub highest_proxy_ordered_cert: Option<WrappedLedgerInfo>,
    pub highest_proxy_timeout_cert: Option<TwoChainTimeoutCertificate>,
    pub highest_primary_qc: QuorumCert,
    pub highest_primary_tc: Option<TwoChainTimeoutCertificate>,
}

impl ProxySyncInfo {
    pub fn new(
        highest_proxy_qc: QuorumCert,
        highest_proxy_ordered_cert: Option<WrappedLedgerInfo>,
        highest_proxy_timeout_cert: Option<TwoChainTimeoutCertificate>,
        highest_primary_qc: QuorumCert,
        highest_primary_tc: Option<TwoChainTimeoutCertificate>,
    ) -> (s: Self)
        ensures
            s == (ProxySyncInfo {
                highest_proxy_qc,
                highest_proxy_ordered_cert,
                highest_proxy_timeout_cert,
                highest_primary_qc,
                highest_primary_tc,
            }),
    {
        ProxySyncInfo {
            highest_proxy_qc,
            highest_proxy_ordered_cert,
            highest_proxy_timeout_cert,
            highest_primary_qc,
            highest_primary_tc,
        }
    }

    /// The round of the highest proxy certificate.
    pub fn highest_proxy_certified_round(&self) -> (r: Round)
        ensures
            r == self.highest_proxy_qc.vote_data.proposed.round,
    {
        self.highest_proxy_qc.vote_data.proposed.round
    }

    /// The round of the highest primary certificate.
    pub fn highest_primary_certified_round(&self) -> (r: Round)
        ensures
            r == self.highest_primary_qc.vote_data.proposed.round,
    {
        self.highest_primary_qc.vote_data.proposed.round
    }
}

/// A proxy block proposal.
#[derive(Debug)]
pub struct ProxyProposalMsg {
    pub proposal: Block,
    pub sync_info: ProxySyncInfo,
}

impl ProxyProposalMsg {
    pub fn proposal(&self) -> (b: &Block)
        ensures
            b@ == self.proposal@,
    {
        &self.proposal
    }

    /// The author of the proposed block, if it has one.
    pub fn proposer(&self) -> (a: Option<Author>)
        ensures
            a == crate::types::spec_author(self.proposal@.block_data.block_type),
    {
        self.proposal.block_data.author()
    }
}

/// A vote on a proxy block.
#[derive(Clone, Copy, Debug, PartialEq, Eq, Structural)]
pub struct ProxyVoteMsg {
    pub vote: Vote,
    pub sync_info: ProxySyncInfo,
}

impl ProxyVoteMsg {
    pub fn vote(&self) -> (v: Vote)
        ensures
            v == self.vote,
    {
        self.vote
    }
}

/// An order vote on a certified proxy block, with the certificate.
#[derive(Clone, Copy, Debug, PartialEq, Eq, Structural)]
pub struct ProxyOrderVoteMsg {
    pub order_vote: OrderVote,
    pub quorum_cert: QuorumCert,
}

impl ProxyOrderVoteMsg {
    pub fn order_vote(&self) -> (v: OrderVote)
        ensures
            v == self.order_vote,
    {
        self.order_vote
    }

    pub fn quorum_cert(&self) -> (q: QuorumCert)
        ensures
            q == self.quorum_cert,
    {
        self.quorum_cert
    }
}

/// The data of an optimistic proxy proposal, which names its parent by block
/// info and carries the certificate on its grandparent.
#[derive(Debug)]
pub struct OptProxyBlockData {
    pub epoch: u64,
    pub round: Round,
    pub timestamp_usecs: u64,
    pub parent: BlockInfo,
    pub validator_txns: Vec<ValidatorTransaction>,
    pub payload: Payload,
    pub author: Author,
    pub grandparent_qc: QuorumCert,
    pub primary_round: Round,
    pub primary_qc: Option<QuorumCert>,
}

impl OptProxyBlockData {
    pub fn new(
        validator_txns: Vec<ValidatorTransaction>,
        payload: Payload,
        author: Author,
        epoch: u64,
        round: Round,
        timestamp_usecs: u64,
        parent: BlockInfo,
        grandparent_qc: QuorumCert,
        primary_round: Round,
        primary_qc: Option<QuorumCert>,
    ) -> (d: Self)
        ensures
            d.validator_txns@ == validator_txns@,
            d.payload == payload,
            d.author == author,
            d.epoch == epoch,
            d.round == round,
            d.timestamp_usecs == timestamp_usecs,
            d.parent == parent,
            d.grandparent_qc == grandparent_qc,
            d.primary_round == primary_round,
            d.primary_qc == primary_qc,
    {
        OptProxyBlockData {
            epoch,
            round,
            timestamp_usecs,
            parent,
            validator_txns,
            payload,
            author,
            grandparent_qc,
            primary_round,
            primary_qc,
        }
    }

    pub fn round(&self) -> (r: Round)
        ensures
            r == self.round,
    {
        self.round
    }
}

/// An optimistic proxy proposal.
#[derive(Debug)]
pub struct OptProxyProposalMsg {
    pub block_data: OptProxyBlockData,
    pub sync_info: ProxySyncInfo,
}

impl OptProxyProposalMsg {
    pub fn block_data(&self) -> (d: &OptProxyBlockData)
        ensures
            d == &self.block_data,
    {
        &self.block_data
    }

    pub fn proposer(&self) -> (a: Author)
        ensures
            a == self.block_data.author,
    {
        self.block_data.author
    }
}

} // verus!
