//! The consensus values that proxy consensus works on.
//!
//! Each type holds, as plain values, what the proxy logic reads of it:
//! rounds, epochs, block identifiers, parent links and the attached
//! certificates. Signatures are not held: signing and signature checks are
//! done by the key holder around this library.
use vstd::prelude::*;

verus! {

/// A consensus round number.
pub type Round = u64;

/// The big-endian bytes of a 128-bit value.
pub open spec fn u128_be_bytes(x: u128) -> Seq<u8> {
    Seq::new(16, |i: int| be_byte(x, i))
}

/// Byte `i` (0 is the most significant) of the big-endian form of `x`.
pub open spec fn be_byte(x: u128, i: int) -> u8 {
    ((x >> ((120 - 8 * i) as u32)) & 0xffu128) as u8
}

/// The value of a sequence of bytes read in big-endian order, truncated to 128 bits.
pub open spec fn be_value(s: Seq<u8>) -> u128
    decreases s.len(),
{
    if s.len() == 0 {
        0
    } else {
        (be_value(s.drop_last()) << 8u32) | (s.last() as u128)
    }
}

/// Appends the big-endian bytes of `x` to `out`.
pub fn push_u128_be(out: &mut Vec<u8>, x: u128)
    ensures
        final(out)@ == old(out)@ + u128_be_bytes(x),
{
    let ghost start = out@;
    let mut i: u32 = 0;
    while i < 16
        invariant
            i <= 16,
            out@.len() == start.len() + i,
            out@.subrange(0, start.len() as int) == start,
            forall|k: int| 0 <= k < i ==> out@[start.len() + k] == be_byte(x, k),
        decreases 16 - i,
    {
        let sh: u32 = 120 - 8 * i;
        let b: u8 = ((x >> sh) & 0xffu128) as u8;
        out.push(b);
        i = i + 1;
    }
    assert(out@ =~= start + u128_be_bytes(x));
}

/// Reads 16 bytes starting at `from` in big-endian order.
pub fn read_u128_be(bytes: &[u8; 32], from: usize) -> (x: u128)
    requires
        from + 16 <= 32,
    ensures
        x == be_value(bytes@.subrange(from as int, from + 16)),
{
    let mut acc: u128 = 0;
    let mut i: usize = 0;
    while i < 16
        invariant
            i <= 16,
            from + 16 <= 32,
            acc == be_value(bytes@.subrange(from as int, from + i)),
        decreases 16 - i,
    {
        let b: u8 = bytes[from + i];
        proof {
            let s = bytes@.subrange(from as int, from + i + 1);
            assert(s.drop_last() =~= bytes@.subrange(from as int, from + i));
            assert(s.last() == b);
        }
        acc = (acc << 8u32) | (b as u128);
        i = i + 1;
    }
    acc
}

/// A 256-bit hash value, held as its high and low 128-bit halves.
#[derive(Clone, Copy, Debug, PartialEq, Eq, Hash, Structural)]
pub struct HashValue {
    pub hi: u128,
    pub lo: u128,
}

impl HashValue {
    /// The 32 bytes of the hash, most significant first.
    pub open spec fn spec_bytes(self) -> Seq<u8> {
        u128_be_bytes(self.hi) + u128_be_bytes(self.lo)
    }

    /// The hash whose bytes are all zero.
    pub fn zero() -> (h: HashValue)
        ensures
            h == (HashValue { hi: 0, lo: 0 }),
    {
        HashValue { hi: 0, lo: 0 }
    }

    /// The hash made of the given 32 bytes, most significant first.
    pub fn new(bytes: [u8; 32]) -> (h: HashValue)
        ensures
            h.hi == be_value(bytes@.subrange(0, 16)),
            h.lo == be_value(bytes@.subrange(16, 32)),
    {
        let hi = read_u128_be(&bytes, 0);
        let lo = read_u128_be(&bytes, 16);
        HashValue { hi, lo }
    }

    /// The 32 bytes of the hash, most significant first.
    pub fn to_vec(&self) -> (v: Vec<u8>)
        ensures
            v@ == self.spec_bytes(),
    {
        let mut v: Vec<u8> = Vec::new();
        push_u128_be(&mut v, self.hi);
        push_u128_be(&mut v, self.lo);
        assert(v@ =~= self.spec_bytes());
        v
    }
}

/// The address of an account; validators are named by theirs.
#[derive(Clone, Copy, Debug, PartialEq, Eq, Hash, Structural)]
pub struct AccountAddress {
    pub hi: u128,
    pub lo: u128,
}

/// The author of a block or a vote.
pub type Author = AccountAddress;

impl AccountAddress {
    /// The address made of the given 32 bytes, most significant first.
    pub fn new(bytes: [u8; 32]) -> (a: AccountAddress)
        ensures
            a.hi == be_value(bytes@.subrange(0, 16)),
            a.lo == be_value(bytes@.subrange(16, 32)),
    {
        let hi = read_u128_be(&bytes, 0);
        let lo = read_u128_be(&bytes, 16);
        AccountAddress { hi, lo }
    }
}

/// Copies a vector of plain values.
pub fn copy_vec<T: Copy>(v: &Vec<T>) -> (r: Vec<T>)
    ensures
        r@ == v@,
{
    let mut r: Vec<T> = Vec::new();
    let mut i: usize = 0;
    while i < v.len()
        invariant
            i <= v.len(),
            r@ == v@.subrange(0, i as int),
        decreases v.len() - i,
    {
        r.push(v[i]);
        i = i + 1;
        assert(r@ =~= v@.subrange(0, i as int));
    }
    assert(v@.subrange(0, v.len() as int) =~= v@);
    r
}

/// What a certificate or vote says of one block.
#[derive(Clone, Copy, Debug, PartialEq, Eq, Structural)]
pub struct BlockInfo {
    pub epoch: u64,
    pub round: Round,
    pub id: HashValue,
    pub timestamp_usecs: u64,
}

impl BlockInfo {
    /// The block info that names no block (all fields zero).
    pub fn empty() -> (b: BlockInfo)
        ensures
            b == (BlockInfo { epoch: 0, round: 0, id: HashValue { hi: 0, lo: 0 }, timestamp_usecs: 0 }),
    {
        BlockInfo { epoch: 0, round: 0, id: HashValue::zero(), timestamp_usecs: 0 }
    }

    pub fn new(epoch: u64, round: Round, id: HashValue, timestamp_usecs: u64) -> (b: BlockInfo)
        ensures
            b == (BlockInfo { epoch, round, id, timestamp_usecs }),
    {
        BlockInfo { epoch, round, id, timestamp_usecs }
    }

    pub fn round(&self) -> (r: Round)
        ensures
            r == self.round,
    {
        self.round
    }

    pub fn id(&self) -> (h: HashValue)
        ensures
            h == self.id,
    {
        self.id
    }

    pub fn epoch(&self) -> (e: u64)
        ensures
            e == self.epoch,
    {
        self.epoch
    }
}

/// The pair of blocks a vote or a certificate is about: the proposed block and its parent.
#[derive(Clone, Copy, Debug, PartialEq, Eq, Structural)]
pub struct VoteData {
    pub proposed: BlockInfo,
    pub parent: BlockInfo,
}

impl VoteData {
    pub fn new(proposed: BlockInfo, parent: BlockInfo) -> (v: VoteData)
        ensures
            v == (VoteData { proposed, parent }),
    {
        VoteData { proposed, parent }
    }
}

/// The statement a vote signs: the block it commits (or the empty block info)
/// and the hash of the vote data.
#[derive(Clone, Copy, Debug, PartialEq, Eq, Structural)]
pub struct LedgerInfo {
    pub commit_info: BlockInfo,
    pub consensus_data_hash: HashValue,
}

impl LedgerInfo {
    pub fn new(commit_info: BlockInfo, consensus_data_hash: HashValue) -> (l: LedgerInfo)
        ensures
            l == (LedgerInfo { commit_info, consensus_data_hash }),
    {
        LedgerInfo { commit_info, consensus_data_hash }
    }
}

/// A quorum certificate: a quorum of votes on `vote_data`.
#[derive(Clone, Copy, Debug, PartialEq, Eq, Structural)]
pub struct QuorumCert {
    pub vote_data: VoteData,
    pub ledger_info: LedgerInfo,
}

impl QuorumCert {
    pub fn new(vote_data: VoteData, ledger_info: LedgerInfo) -> (q: QuorumCert)
        ensures
            q == (QuorumCert { vote_data, ledger_info }),
    {
        QuorumCert { vote_data, ledger_info }
    }

    /// The block that this certificate certifies.
    pub fn certified_block(&self) -> (b: BlockInfo)
        ensures
            b == self.vote_data.proposed,
    {
        self.vote_data.proposed
    }

    /// The parent of the certified block.
    pub fn parent_block(&self) -> (b: BlockInfo)
        ensures
            b == self.vote_data.parent,
    {
        self.vote_data.parent
    }
}

/// A ledger info carried with the vote data it was formed on; used as the
/// proof that a proxy block was ordered.
#[derive(Clone, Copy, Debug, PartialEq, Eq, Structural)]
pub struct WrappedLedgerInfo {
    pub vote_data: VoteData,
    pub ledger_info: LedgerInfo,
}

impl WrappedLedgerInfo {
    pub fn commit_info(&self) -> (b: BlockInfo)
        ensures
            b == self.ledger_info.commit_info,
    {
        self.ledger_info.commit_info
    }
}

/// A two-chain timeout certificate: a quorum of timeouts for `round`;
/// `highest_hqc_round` is the highest quorum certificate round among them.
#[derive(Clone, Copy, Debug, PartialEq, Eq, Structural)]
pub struct TwoChainTimeoutCertificate {
    pub epoch: u64,
    pub round: Round,
    pub highest_hqc_round: Round,
}

impl TwoChainTimeoutCertificate {
    pub fn new(epoch: u64, round: Round, highest_hqc_round: Round) -> (t: TwoChainTimeoutCertificate)
        ensures
            t == (TwoChainTimeoutCertificate { epoch, round, highest_hqc_round }),
    {
        TwoChainTimeoutCertificate { epoch, round, highest_hqc_round }
    }

    pub fn round(&self) -> (r: Round)
        ensures
            r == self.round,
    {
        self.round
    }

    pub fn highest_hqc_round(&self) -> (r: Round)
        ensures
            r == self.highest_hqc_round,
    {
        self.highest_hqc_round
    }
}

/// The transactions of a block, counted.
#[derive(Clone, Copy, Debug, PartialEq, Eq, Structural)]
pub struct Payload {
    pub num_txns: usize,
}

impl Payload {
    /// The payload without transactions.
    pub fn empty() -> (p: Payload)
        ensures
            p.num_txns == 0,
    {
        Payload { num_txns: 0 }
    }

    /// The number of transactions.
    pub fn len(&self) -> (n: usize)
        ensures
            n == self.num_txns,
    {
        self.num_txns
    }
}

/// The kinds of validator transactions a proxy block may carry.
#[derive(Clone, Copy, Debug, PartialEq, Eq, Structural)]
pub enum ValidatorTransaction {
    /// An aggregated DKG transcript, named by its digest.
    DkgResult(HashValue),
    /// An observed JWK update with its quorum signature, named by its digest.
    ObservedJwkUpdate(HashValue),
}

/// What a block is: an ordinary proposal, a proxy block, a nil block or genesis.
#[derive(Debug)]
pub enum BlockType {
    Proposal {
        payload: Payload,
        author: Author,
        failed_authors: Vec<(Round, Author)>,
        validator_txns: Vec<ValidatorTransaction>,
    },
    NilBlock { failed_authors: Vec<(Round, Author)> },
    Genesis,
    ProxyBlock {
        validator_txns: Vec<ValidatorTransaction>,
        payload: Payload,
        author: Author,
        failed_authors: Vec<(Round, Author)>,
        primary_round: Round,
        primary_qc: Option<QuorumCert>,
    },
}

/// The model of a [`BlockType`]: its vectors as sequences.
pub enum BlockTypeView {
    Proposal {
        payload: Payload,
        author: Author,
        failed_authors: Seq<(Round, Author)>,
        validator_txns: Seq<ValidatorTransaction>,
    },
    NilBlock { failed_authors: Seq<(Round, Author)> },
    Genesis,
    ProxyBlock {
        validator_txns: Seq<ValidatorTransaction>,
        payload: Payload,
        author: Author,
        failed_authors: Seq<(Round, Author)>,
        primary_round: Round,
        primary_qc: Option<QuorumCert>,
    },
}

impl View for BlockType {
    type V = BlockTypeView;

    open spec fn view(&self) -> BlockTypeView {
        match self {
            BlockType::Proposal { payload, author, failed_authors, validator_txns } => {
                BlockTypeView::Proposal {
                    payload: *payload,
                    author: *author,
                    failed_authors: failed_authors@,
                    validator_txns: validator_txns@,
                }
            },
            BlockType::NilBlock { failed_authors } => BlockTypeView::NilBlock {
                failed_authors: failed_authors@,
            },
            BlockType::Genesis => BlockTypeView::Genesis,
            BlockType::ProxyBlock {
                validator_txns,
                payload,
                author,
                failed_authors,
                primary_round,
                primary_qc,
            } => BlockTypeView::ProxyBlock {
                validator_txns: validator_txns@,
                payload: *payload,
                author: *author,
                failed_authors: failed_authors@,
                primary_round: *primary_round,
                primary_qc: *primary_qc,
            },
        }
    }
}

impl Clone for BlockType {
    fn clone(&self) -> (r: Self)
        ensures
            r@ == self@,
    {
        match self {
            BlockType::Proposal { payload, author, failed_authors, validator_txns } => {
                BlockType::Proposal {
                    payload: *payload,
                    author: *author,
                    failed_authors: copy_vec(failed_authors),
                    validator_txns: copy_vec(validator_txns),
                }
            },
            BlockType::NilBlock { failed_authors } => {
                BlockType::NilBlock { failed_authors: copy_vec(failed_authors) }
            },
            BlockType::Genesis => BlockType::Genesis,
            BlockType::ProxyBlock {
                validator_txns,
                payload,
                author,
                failed_authors,
                primary_round,
                primary_qc,
            } => BlockType::ProxyBlock {
                validator_txns: copy_vec(validator_txns),
                payload: *payload,
                author: *author,
                failed_authors: copy_vec(failed_authors),
                primary_round: *primary_round,
                primary_qc: *primary_qc,
            },
        }
    }
}

/// The primary round of a block: defined for proxy blocks only.
pub open spec fn spec_primary_round(t: BlockTypeView) -> Option<Round> {
    match t {
        BlockTypeView::ProxyBlock { primary_round, .. } => Some(primary_round),
        _ => None,
    }
}

/// The primary quorum certificate attached to a block, if it is a proxy block that carries one.
pub open spec fn spec_primary_qc(t: BlockTypeView) -> Option<QuorumCert> {
    match t {
        BlockTypeView::ProxyBlock { primary_qc, .. } => primary_qc,
        _ => None,
    }
}

/// The payload of a block: proposals and proxy blocks have one.
pub open spec fn spec_payload(t: BlockTypeView) -> Option<Payload> {
    match t {
        BlockTypeView::Proposal { payload, .. } => Some(payload),
        BlockTypeView::ProxyBlock { payload, .. } => Some(payload),
        _ => None,
    }
}

/// The validator transactions of a block: proposals and proxy blocks have them.
pub open spec fn spec_validator_txns(t: BlockTypeView) -> Option<Seq<ValidatorTransaction>> {
    match t {
        BlockTypeView::Proposal { validator_txns, .. } => Some(validator_txns),
        BlockTypeView::ProxyBlock { validator_txns, .. } => Some(validator_txns),
        _ => None,
    }
}

/// The author of a block: proposals and proxy blocks have one.
pub open spec fn spec_author(t: BlockTypeView) -> Option<Author> {
    match t {
        BlockTypeView::Proposal { author, .. } => Some(author),
        BlockTypeView::ProxyBlock { author, .. } => Some(author),
        _ => None,
    }
}

/// The content of a block, without its identifier.
#[derive(Debug)]
pub struct BlockData {
    pub epoch: u64,
    pub round: Round,
    pub timestamp_usecs: u64,
    /// The certificate on the parent block.
    pub quorum_cert: QuorumCert,
    pub block_type: BlockType,
}

/// The model of a [`BlockData`].
pub struct BlockDataView {
    pub epoch: u64,
    pub round: Round,
    pub timestamp_usecs: u64,
    pub quorum_cert: QuorumCert,
    pub block_type: BlockTypeView,
}

impl View for BlockData {
    type V = BlockDataView;

    open spec fn view(&self) -> BlockDataView {
        BlockDataView {
            epoch: self.epoch,
            round: self.round,
            timestamp_usecs: self.timestamp_usecs,
            quorum_cert: self.quorum_cert,
            block_type: self.block_type@,
        }
    }
}

impl Clone for BlockData {
    fn clone(&self) -> (r: Self)
        ensures
            r@ == self@,
    {
        BlockData {
            epoch: self.epoch,
            round: self.round,
            timestamp_usecs: self.timestamp_usecs,
            quorum_cert: self.quorum_cert,
            block_type: self.block_type.clone(),
        }
    }
}

impl BlockData {
    /// The data of a proxy block.
    pub fn new_from_proxy(
        epoch: u64,
        round: Round,
        timestamp_usecs: u64,
        quorum_cert: QuorumCert,
        validator_txns: Vec<ValidatorTransaction>,
        payload: Payload,
        author: Author,
        failed_authors: Vec<(Round, Author)>,
        primary_round: Round,
        primary_qc: Option<QuorumCert>,
    ) -> (d: BlockData)
        ensures
            d@ == (BlockDataView {
                epoch,
                round,
                timestamp_usecs,
                quorum_cert,
                block_type: BlockTypeView::ProxyBlock {
                    validator_txns: validator_txns@,
                    payload,
                    author,
                    failed_authors: failed_authors@,
                    primary_round,
                    primary_qc,
                },
            }),
    {
        BlockData {
            epoch,
            round,
            timestamp_usecs,
            quorum_cert,
            block_type: BlockType::ProxyBlock {
                validator_txns,
                payload,
                author,
                failed_authors,
                primary_round,
                primary_qc,
            },
        }
    }

    /// The data of an ordinary (non-proxy) proposal without validator transactions.
    pub fn new_proposal(
        payload: Payload,
        author: Author,
        failed_authors: Vec<(Round, Author)>,
        epoch: u64,
        round: Round,
        timestamp_usecs: u64,
        quorum_cert: QuorumCert,
    ) -> (d: BlockData)
        ensures
            d@ == (BlockDataView {
                epoch,
                round,
                timestamp_usecs,
                quorum_cert,
                block_type: BlockTypeView::Proposal {
                    payload,
                    author,
                    failed_authors: failed_authors@,
                    validator_txns: Seq::empty(),
                },
            }),
    {
        let d = BlockData {
            epoch,
            round,
            timestamp_usecs,
            quorum_cert,
            block_type: BlockType::Proposal {
                payload,
                author,
                failed_authors,
                validator_txns: Vec::new(),
            },
        };
        assert(d@.block_type->Proposal_validator_txns =~= Seq::<ValidatorTransaction>::empty());
        d
    }

    pub fn primary_round(&self) -> (r: Option<Round>)
        ensures
            r == spec_primary_round(self.block_type@),
    {
        match &self.block_type {
            BlockType::ProxyBlock { primary_round, .. } => Some(*primary_round),
            _ => None,
        }
    }

    pub fn primary_qc(&self) -> (q: Option<QuorumCert>)
        ensures
            q == spec_primary_qc(self.block_type@),
    {
        match &self.block_type {
            BlockType::ProxyBlock { primary_qc, .. } => *primary_qc,
            _ => None,
        }
    }

    pub fn author(&self) -> (a: Option<Author>)
        ensures
            a == spec_author(self.block_type@),
    {
        match &self.block_type {
            BlockType::Proposal { author, .. } => Some(*author),
            BlockType::ProxyBlock { author, .. } => Some(*author),
            _ => None,
        }
    }

    pub fn epoch(&self) -> (e: u64)
        ensures
            e == self.epoch,
    {
        self.epoch
    }

    pub fn round(&self) -> (r: Round)
        ensures
            r == self.round,
    {
        self.round
    }

    pub fn quorum_cert(&self) -> (q: &QuorumCert)
        ensures
            *q == self.quorum_cert,
    {
        &self.quorum_cert
    }
}

/// A block: its identifier and its data.
#[derive(Debug)]
pub struct Block {
    pub id: HashValue,
    pub block_data: BlockData,
}

/// The model of a [`Block`].
pub struct BlockView {
    pub id: HashValue,
    pub block_data: BlockDataView,
}

impl View for Block {
    type V = BlockView;

    open spec fn view(&self) -> BlockView {
        BlockView { id: self.id, block_data: self.block_data@ }
    }
}

impl BlockView {
    pub open spec fn round(self) -> Round {
        self.block_data.round
    }

    pub open spec fn epoch(self) -> u64 {
        self.block_data.epoch
    }

    /// The identifier of the parent block: the block certified by the parent certificate.
    pub open spec fn parent_id(self) -> HashValue {
        self.block_data.quorum_cert.vote_data.proposed.id
    }

    pub open spec fn primary_round(self) -> Option<Round> {
        spec_primary_round(self.block_data.block_type)
    }

    pub open spec fn primary_qc(self) -> Option<QuorumCert> {
        spec_primary_qc(self.block_data.block_type)
    }

    pub open spec fn payload(self) -> Option<Payload> {
        spec_payload(self.block_data.block_type)
    }

    pub open spec fn validator_txns(self) -> Option<Seq<ValidatorTransaction>> {
        spec_validator_txns(self.block_data.block_type)
    }

    /// The block info of this block.
    pub open spec fn block_info(self) -> BlockInfo {
        BlockInfo {
            epoch: self.block_data.epoch,
            round: self.block_data.round,
            id: self.id,
            timestamp_usecs: self.block_data.timestamp_usecs,
        }
    }
}

impl Clone for Block {
    fn clone(&self) -> (r: Self)
        ensures
            r@ == self@,
    {
        Block { id: self.id, block_data: self.block_data.clone() }
    }
}

impl Block {
    pub fn new(id: HashValue, block_data: BlockData) -> (b: Block)
        ensures
            b@ == (BlockView { id, block_data: block_data@ }),
    {
        Block { id, block_data }
    }

    pub fn id(&self) -> (h: HashValue)
        ensures
            h == self.id,
    {
        self.id
    }

    pub fn round(&self) -> (r: Round)
        ensures
            r == self@.round(),
    {
        self.block_data.round
    }

    pub fn epoch(&self) -> (e: u64)
        ensures
            e == self@.epoch(),
    {
        self.block_data.epoch
    }

    pub fn timestamp_usecs(&self) -> (t: u64)
        ensures
            t == self@.block_data.timestamp_usecs,
    {
        self.block_data.timestamp_usecs
    }

    pub fn parent_id(&self) -> (h: HashValue)
        ensures
            h == self@.parent_id(),
    {
        self.block_data.quorum_cert.vote_data.proposed.id
    }

    pub fn quorum_cert(&self) -> (q: &QuorumCert)
        ensures
            *q == self@.block_data.quorum_cert,
    {
        &self.block_data.quorum_cert
    }

    pub fn block_data(&self) -> (d: &BlockData)
        ensures
            d@ == self@.block_data,
    {
        &self.block_data
    }

    pub fn payload(&self) -> (p: Option<Payload>)
        ensures
            p == self@.payload(),
    {
        match &self.block_data.block_type {
            BlockType::Proposal { payload, .. } => Some(*payload),
            BlockType::ProxyBlock { payload, .. } => Some(*payload),
            _ => None,
        }
    }

    pub fn validator_txns(&self) -> (v: Option<&Vec<ValidatorTransaction>>)
        ensures
            match v {
                Some(t) => self@.validator_txns() == Some(t@),
                None => self@.validator_txns() is None,
            },
    {
        match &self.block_data.block_type {
            BlockType::Proposal { validator_txns, .. } => Some(validator_txns),
            BlockType::ProxyBlock { validator_txns, .. } => Some(validator_txns),
            _ => None,
        }
    }

    pub fn gen_block_info(&self) -> (b: BlockInfo)
        ensures
            b == self@.block_info(),
    {
        BlockInfo {
            epoch: self.block_data.epoch,
            round: self.block_data.round,
            id: self.id,
            timestamp_usecs: self.block_data.timestamp_usecs,
        }
    }
}

/// A vote on a block: the vote data, the voter and the ledger info it signs.
#[derive(Clone, Copy, Debug, PartialEq, Eq, Structural)]
pub struct Vote {
    pub vote_data: VoteData,
    pub author: Author,
    pub ledger_info: LedgerInfo,
}

impl Vote {
    pub fn new(vote_data: VoteData, author: Author, ledger_info: LedgerInfo) -> (v: Vote)
        ensures
            v == (Vote { vote_data, author, ledger_info }),
    {
        Vote { vote_data, author, ledger_info }
    }

    pub fn author(&self) -> (a: Author)
        ensures
            a == self.author,
    {
        self.author
    }

    pub fn vote_data(&self) -> (v: VoteData)
        ensures
            v == self.vote_data,
    {
        self.vote_data
    }
}

/// An order vote: the voter and the ledger info naming the block it orders.
#[derive(Clone, Copy, Debug, PartialEq, Eq, Structural)]
pub struct OrderVote {
    pub author: Author,
    pub ledger_info: LedgerInfo,
}

impl OrderVote {
    pub fn new(author: Author, ledger_info: LedgerInfo) -> (v: OrderVote)
        ensures
            v == (OrderVote { author, ledger_info }),
    {
        OrderVote { author, ledger_info }
    }

    pub fn author(&self) -> (a: Author)
        ensures
            a == self.author,
    {
        self.author
    }

    pub fn ledger_info(&self) -> (l: LedgerInfo)
        ensures
            l == self.ledger_info,
    {
        self.ledger_info
    }
}

/// A block offered for a vote.
#[derive(Debug)]
pub struct VoteProposal {
    pub block: Block,
}

impl VoteProposal {
    pub fn block(&self) -> (b: &Block)
        ensures
            b@ == self.block@,
    {
        &self.block
    }
}

/// A certified block offered for an order vote: the block, the block info
/// the certificate names, and the certificate.
#[derive(Debug)]
pub struct OrderVoteProposal {
    pub block: Block,
    pub block_info: BlockInfo,
    pub quorum_cert: QuorumCert,
}

/// The voting state that the safety rules keep.
#[derive(Clone, Copy, Debug, PartialEq, Eq, Structural)]
pub struct SafetyData {
    pub epoch: u64,
    pub last_voted_round: Round,
    /// The highest two-chain round observed (the parent round of the highest certificate).
    pub preferred_round: Round,
    /// The highest one-chain round observed (the round of the highest certificate).
    pub one_chain_round: Round,
    pub last_vote: Option<Vote>,
    pub highest_timeout_round: Round,
}

impl SafetyData {
    pub fn new(
        epoch: u64,
        last_voted_round: Round,
        preferred_round: Round,
        one_chain_round: Round,
        last_vote: Option<Vote>,
        highest_timeout_round: Round,
    ) -> (s: SafetyData)
        ensures
            s == (SafetyData {
                epoch,
                last_voted_round,
                preferred_round,
                one_chain_round,
                last_vote,
                highest_timeout_round,
            }),
    {
        SafetyData {
            epoch,
            last_voted_round,
            preferred_round,
            one_chain_round,
            last_vote,
            highest_timeout_round,
        }
    }
}

/// A validator and its voting power.
#[derive(Clone, Copy, Debug, PartialEq, Eq, Structural)]
pub struct ValidatorConsensusInfo {
    pub address: AccountAddress,
    pub voting_power: u64,
}

/// The sum of the voting powers of a list of validators.
pub open spec fn total_power(infos: Seq<ValidatorConsensusInfo>) -> int
    decreases infos.len(),
{
    if infos.len() == 0 {
        0
    } else {
        total_power(infos.drop_last()) + infos.last().voting_power
    }
}

/// The voting power of `author` in a list of validators: that of its last entry.
pub open spec fn power_of(infos: Seq<ValidatorConsensusInfo>, author: Author) -> Option<u64>
    decreases infos.len(),
{
    if infos.len() == 0 {
        None
    } else if infos.last().address == author {
        Some(infos.last().voting_power)
    } else {
        power_of(infos.drop_last(), author)
    }
}

/// The voting power that a quorum of a non-empty validator set needs: more
/// than two thirds of the total.
pub open spec fn quorum_of(total: int) -> int {
    total * 2 / 3 + 1
}

/// The validator set of an epoch, with the voting power that forms a quorum.
#[derive(Debug)]
pub struct ValidatorVerifier {
    pub validator_infos: Vec<ValidatorConsensusInfo>,
    pub total_voting_power: u128,
    pub quorum_voting_power: u128,
}

impl ValidatorVerifier {
    /// The well-formedness of a validator set: the totals are those of the list.
    pub open spec fn wf(&self) -> bool {
        &&& self.total_voting_power == total_power(self.validator_infos@)
        &&& self.quorum_voting_power == if self.validator_infos@.len() == 0 {
            0
        } else {
            quorum_of(self.total_voting_power as int)
        }
    }

    /// The validator set of the given validators.
    pub fn new(validator_infos: Vec<ValidatorConsensusInfo>) -> (v: ValidatorVerifier)
        requires
            total_power(validator_infos@) * 2 <= u128::MAX,
        ensures
            v.validator_infos@ == validator_infos@,
            v.wf(),
    {
        let mut total: u128 = 0;
        let mut i: usize = 0;
        while i < validator_infos.len()
            invariant
                i <= validator_infos.len(),
                total == total_power(validator_infos@.subrange(0, i as int)),
                total_power(validator_infos@) * 2 <= u128::MAX,
            decreases validator_infos.len() - i,
        {
            proof {
                lemma_total_power_prefix(validator_infos@, i as int + 1);
                assert(validator_infos@.subrange(0, i as int + 1).drop_last()
                    =~= validator_infos@.subrange(0, i as int));
            }
            total = total + validator_infos[i].voting_power as u128;
            i = i + 1;
        }
        assert(validator_infos@.subrange(0, i as int) =~= validator_infos@);
        let quorum: u128 = if validator_infos.len() == 0 {
            0
        } else {
            total * 2 / 3 + 1
        };
        ValidatorVerifier { validator_infos, total_voting_power: total, quorum_voting_power: quorum }
    }

    pub fn quorum_voting_power(&self) -> (q: u128)
        ensures
            q == self.quorum_voting_power,
    {
        self.quorum_voting_power
    }

    /// The voting power of `author`, if it is in the validator set.
    pub fn get_voting_power(&self, author: &Author) -> (p: Option<u64>)
        ensures
            p == power_of(self.validator_infos@, *author),
    {
        let mut i: usize = self.validator_infos.len();
        assert(self.validator_infos@.subrange(0, i as int) =~= self.validator_infos@);
        while i > 0
            invariant
                i <= self.validator_infos@.len(),
                power_of(self.validator_infos@, *author) == power_of(
                    self.validator_infos@.subrange(0, i as int),
                    *author,
                ),
            decreases i,
        {
            let info = self.validator_infos[i - 1];
            proof {
                let s = self.validator_infos@.subrange(0, i as int);
                assert(s.drop_last() =~= self.validator_infos@.subrange(0, i - 1));
            }
            if info.address == *author {
                return Some(info.voting_power);
            }
            i = i - 1;
        }
        None
    }
}

/// The quorum of a validator set is the smallest voting power above two
/// thirds of the total.
pub proof fn lemma_quorum_is_two_thirds(total: int)
    requires
        total >= 0,
    ensures
        quorum_of(total) * 3 > total * 2,
        (quorum_of(total) - 1) * 3 <= total * 2,
{
    vstd::arithmetic::div_mod::lemma_fundamental_div_mod(total * 2, 3);
    vstd::arithmetic::div_mod::lemma_mod_bound(total * 2, 3);
}

/// A validator's voting power is found exactly for the addresses in the
/// set, and is the power of an entry with that address.
pub proof fn lemma_power_of_entry(infos: Seq<ValidatorConsensusInfo>, author: Author)
    ensures
        power_of(infos, author) is None <==> forall|i: int| 0 <= i < infos.len() ==> (#[trigger] infos[i]).address
            != author,
        power_of(infos, author) matches Some(p) ==> exists|i: int|
            0 <= i < infos.len() && (#[trigger] infos[i]).address == author && infos[i].voting_power == p,
    decreases infos.len(),
{
    if infos.len() > 0 {
        let t = infos.drop_last();
        lemma_power_of_entry(t, author);
        let n = infos.len() - 1;
        assert forall|i: int| 0 <= i < t.len() implies #[trigger] t[i] == infos[i] by {}
        if power_of(infos, author) is None {
            assert forall|i: int| 0 <= i < infos.len() implies (#[trigger] infos[i]).address != author by {
                if i < n {
                    assert(t[i] == infos[i]);
                }
            }
        }
        if infos.last().address == author {
            assert(infos[n].address == author);
        } else {
            match power_of(t, author) {
                Some(p) => {
                    let i = choose|i: int|
                        0 <= i < t.len() && (#[trigger] t[i]).address == author && t[i].voting_power == p;
                    assert(infos[i] == t[i]);
                },
                None => {},
            }
        }
    }
}

/// The total power of a prefix is at most that of the whole list.
pub proof fn lemma_total_power_prefix(infos: Seq<ValidatorConsensusInfo>, n: int)
    requires
        0 <= n <= infos.len(),
    ensures
        0 <= total_power(infos.subrange(0, n)) <= total_power(infos),
    decreases infos.len() - n,
{
    if n == infos.len() {
        assert(infos.subrange(0, n) =~= infos);
        lemma_total_power_nonneg(infos);
    } else {
        lemma_total_power_prefix(infos, n + 1);
        let s = infos.subrange(0, n + 1);
        assert(s.drop_last() =~= infos.subrange(0, n));
        lemma_total_power_nonneg(infos.subrange(0, n));
    }
}

/// Voting powers are never negative.
pub proof fn lemma_total_power_nonneg(infos: Seq<ValidatorConsensusInfo>)
    ensures
        total_power(infos) >= 0,
    decreases infos.len(),
{
    if infos.len() > 0 {
        lemma_total_power_nonneg(infos.drop_last());
    }
}

/// The state of an epoch: its number and its validator set.
#[derive(Debug)]
pub struct EpochState {
    pub epoch: u64,
    pub verifier: ValidatorVerifier,
}

impl EpochState {
    /// The epoch state with epoch 0 and no validators.
    pub fn empty() -> (e: EpochState)
        ensures
            e.epoch == 0,
            e.verifier.validator_infos@.len() == 0,
            e.verifier.wf(),
    {
        EpochState { epoch: 0, verifier: ValidatorVerifier::new(Vec::new()) }
    }
}

} // verus!
