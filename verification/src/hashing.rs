//! Domain-separated SHA3-256 hashing.
//!
//! A value is hashed under the name of its type: the digest is
//! `SHA3-256(SHA3-256("APTOS::" ++ name) ++ bytes)`.
use crate::types::{
    be_value, u128_be_bytes, AccountAddress, Block, BlockData, BlockDataView, BlockInfo, BlockType,
    BlockTypeView, BlockView, HashValue, Payload, QuorumCert, Round, ValidatorTransaction,
    VoteData, push_u128_be,
};
use tiny_keccak::{Hasher, Sha3};
use vstd::prelude::*;
use vstd::string::StringSliceAdditionalSpecFns;

verus! {

/// The SHA3-256 digest of a byte string.
pub uninterp spec fn spec_sha3_256(data: Seq<u8>) -> Seq<u8>;

/// Calls `tiny_keccak::Sha3::v256`, absorbs `data` with `Hasher::update` and
/// squeezes the 32-byte digest with `Hasher::finalize`. The contract claims
/// that the digest is the SHA3-256 digest of `data`, a function of `data` alone.
#[verifier::external_body]
fn sha3_256(data: &[u8]) -> (digest: [u8; 32])
    ensures
        digest@ == spec_sha3_256(data@),
{
    let mut hasher = Sha3::v256();
    hasher.update(data);
    let mut digest = [0u8; 32];
    hasher.finalize(&mut digest);
    digest
}

/// The hash value made of the first 32 bytes of `bytes`.
pub open spec fn hash_value_of(bytes: Seq<u8>) -> HashValue {
    HashValue { hi: be_value(bytes.subrange(0, 16)), lo: be_value(bytes.subrange(16, 32)) }
}

/// The prefix that domain-separated hashing puts before a type name.
pub open spec fn hash_prefix() -> Seq<u8> {
    "APTOS::".spec_bytes()
}

/// The seed of the hasher for values of the type named `name`.
pub open spec fn hasher_seed(name: Seq<u8>) -> Seq<u8> {
    spec_sha3_256(hash_prefix() + name)
}

/// The hash of `bytes` as a value of the type named `name`.
pub open spec fn domain_hash(name: Seq<u8>, bytes: Seq<u8>) -> HashValue {
    hash_value_of(spec_sha3_256(hasher_seed(name) + bytes))
}

/// Appends the bytes of a slice to `out`.
pub fn append_bytes(out: &mut Vec<u8>, bytes: &[u8])
    ensures
        final(out)@ == old(out)@ + bytes@,
{
    let ghost start = out@;
    let mut i: usize = 0;
    while i < bytes.len()
        invariant
            i <= bytes@.len(),
            out@ == start + bytes@.subrange(0, i as int),
        decreases bytes@.len() - i,
    {
        out.push(bytes[i]);
        i = i + 1;
        assert(out@ =~= start + bytes@.subrange(0, i as int));
    }
    assert(bytes@.subrange(0, i as int) =~= bytes@);
}

/// A buffer that holds the hasher seed of the type named `name`.
pub fn seeded_buffer(name: &str) -> (buf: Vec<u8>)
    ensures
        buf@ == hasher_seed(name.spec_bytes()),
{
    let mut salt: Vec<u8> = Vec::new();
    append_bytes(&mut salt, "APTOS::".as_bytes());
    append_bytes(&mut salt, name.as_bytes());
    let seed = sha3_256(salt.as_slice());
    let mut buf: Vec<u8> = Vec::new();
    append_bytes(&mut buf, &seed);
    buf
}

/// Finishes a seeded buffer into a hash value.
pub fn finish_hash(buf: &Vec<u8>) -> (h: HashValue)
    ensures
        h == hash_value_of(spec_sha3_256(buf@)),
{
    let digest = sha3_256(buf.as_slice());
    HashValue::new(digest)
}

/// The big-endian bytes of a 64-bit value.
pub open spec fn u64_be_bytes(x: u64) -> Seq<u8> {
    Seq::new(8, |i: int| be_byte64(x, i))
}

/// Byte `i` (0 is the most significant) of the big-endian form of `x`.
pub open spec fn be_byte64(x: u64, i: int) -> u8 {
    ((x >> ((56 - 8 * i) as u32)) & 0xffu64) as u8
}

/// Appends the big-endian bytes of `x` to `out`.
pub fn push_u64_be(out: &mut Vec<u8>, x: u64)
    ensures
        final(out)@ == old(out)@ + u64_be_bytes(x),
{
    let ghost start = out@;
    let mut i: u32 = 0;
    while i < 8
        invariant
            i <= 8,
            out@.len() == start.len() + i,
            out@.subrange(0, start.len() as int) == start,
            forall|k: int| 0 <= k < i ==> out@[start.len() + k] == be_byte64(x, k),
        decreases 8 - i,
    {
        let sh: u32 = 56 - 8 * i;
        let b: u8 = ((x >> sh) & 0xffu64) as u8;
        out.push(b);
        i = i + 1;
    }
    assert(out@ =~= start + u64_be_bytes(x));
}

/// The byte encoding of a block info: epoch, round, id and timestamp.
pub open spec fn block_info_bytes(b: BlockInfo) -> Seq<u8> {
    u64_be_bytes(b.epoch) + u64_be_bytes(b.round) + b.id.spec_bytes() + u64_be_bytes(
        b.timestamp_usecs,
    )
}

/// Appends the byte encoding of a block info to `out`.
pub fn push_block_info(out: &mut Vec<u8>, b: &BlockInfo)
    ensures
        final(out)@ == old(out)@ + block_info_bytes(*b),
{
    let ghost start = out@;
    push_u64_be(out, b.epoch);
    push_u64_be(out, b.round);
    let id = b.id.to_vec();
    append_bytes(out, id.as_slice());
    push_u64_be(out, b.timestamp_usecs);
    assert(out@ =~= start + block_info_bytes(*b));
}

/// The hash of a vote data: the hash of its proposed and parent block infos.
pub open spec fn vote_data_hash(v: VoteData) -> HashValue {
    domain_hash("VoteData".spec_bytes(), block_info_bytes(v.proposed) + block_info_bytes(v.parent))
}

impl VoteData {
    /// The hash of this vote data, which a vote's ledger info carries.
    pub fn hash(&self) -> (h: HashValue)
        ensures
            h == vote_data_hash(*self),
    {
        let mut buf = seeded_buffer("VoteData");
        let ghost seed = buf@;
        push_block_info(&mut buf, &self.proposed);
        push_block_info(&mut buf, &self.parent);
        assert(buf@ =~= seed + (block_info_bytes(self.proposed) + block_info_bytes(self.parent)));
        finish_hash(&buf)
    }
}

/// The bytes of the identifiers of a sequence of blocks, in order.
pub open spec fn block_ids_bytes(blocks: Seq<BlockView>) -> Seq<u8>
    decreases blocks.len(),
{
    if blocks.len() == 0 {
        Seq::empty()
    } else {
        block_ids_bytes(blocks.drop_last()) + blocks.last().id.spec_bytes()
    }
}

/// The aggregated hash of a sequence of proxy blocks: the hash of their identifiers, in order.
pub open spec fn aggregated_hash(blocks: Seq<BlockView>) -> HashValue {
    domain_hash("AggregatedProxyBlocks".spec_bytes(), block_ids_bytes(blocks))
}

/// Appends the 32 bytes of a hash value to `out`.
pub fn push_hash(out: &mut Vec<u8>, h: &HashValue)
    ensures
        final(out)@ == old(out)@ + h.spec_bytes(),
{
    push_u128_be(out, h.hi);
    push_u128_be(out, h.lo);
    assert(out@ =~= old(out)@ + h.spec_bytes());
}

/// The 32 bytes of an account address.
pub open spec fn account_bytes(a: AccountAddress) -> Seq<u8> {
    u128_be_bytes(a.hi) + u128_be_bytes(a.lo)
}

/// Appends the bytes of an account address to `out`.
pub fn push_account(out: &mut Vec<u8>, a: &AccountAddress)
    ensures
        final(out)@ == old(out)@ + account_bytes(*a),
{
    push_u128_be(out, a.hi);
    push_u128_be(out, a.lo);
    assert(out@ =~= old(out)@ + account_bytes(*a));
}

/// The byte encoding of a quorum certificate: its two block infos, then its
/// ledger info's commit info and consensus data hash.
pub open spec fn qc_bytes(q: QuorumCert) -> Seq<u8> {
    block_info_bytes(q.vote_data.proposed) + block_info_bytes(q.vote_data.parent) + block_info_bytes(
        q.ledger_info.commit_info,
    ) + q.ledger_info.consensus_data_hash.spec_bytes()
}

/// Appends the byte encoding of a quorum certificate to `out`.
pub fn push_qc(out: &mut Vec<u8>, q: &QuorumCert)
    ensures
        final(out)@ == old(out)@ + qc_bytes(*q),
{
    push_block_info(out, &q.vote_data.proposed);
    push_block_info(out, &q.vote_data.parent);
    push_block_info(out, &q.ledger_info.commit_info);
    push_hash(out, &q.ledger_info.consensus_data_hash);
    assert(out@ =~= old(out)@ + qc_bytes(*q));
}

/// The byte encoding of an optional quorum certificate: a tag byte, then the certificate.
pub open spec fn opt_qc_bytes(o: Option<QuorumCert>) -> Seq<u8> {
    match o {
        None => seq![0u8],
        Some(q) => seq![1u8] + qc_bytes(q),
    }
}

/// The byte encoding of the (round, author) entries of a list, in order.
pub open spec fn failed_authors_items(s: Seq<(Round, AccountAddress)>) -> Seq<u8>
    decreases s.len(),
{
    if s.len() == 0 {
        Seq::empty()
    } else {
        failed_authors_items(s.drop_last()) + u64_be_bytes(s.last().0) + account_bytes(s.last().1)
    }
}

/// The byte encoding of a list of failed authors: its length, then its entries.
pub open spec fn failed_authors_bytes(s: Seq<(Round, AccountAddress)>) -> Seq<u8> {
    u64_be_bytes(s.len() as u64) + failed_authors_items(s)
}

/// Appends the byte encoding of a list of failed authors to `out`.
pub fn push_failed_authors(out: &mut Vec<u8>, s: &Vec<(Round, AccountAddress)>)
    ensures
        final(out)@ == old(out)@ + failed_authors_bytes(s@),
{
    push_u64_be(out, s.len() as u64);
    let ghost start = out@;
    let mut i: usize = 0;
    while i < s.len()
        invariant
            i <= s@.len(),
            out@ == start + failed_authors_items(s@.take(i as int)),
        decreases s@.len() - i,
    {
        let (r, a) = s[i];
        proof {
            assert(s@.take(i + 1).drop_last() =~= s@.take(i as int));
            assert(s@.take(i + 1).last() == s@[i as int]);
        }
        push_u64_be(out, r);
        push_account(out, &a);
        assert(out@ =~= start + failed_authors_items(s@.take(i + 1)));
        i = i + 1;
    }
    assert(s@.take(i as int) =~= s@);
    assert(out@ =~= old(out)@ + failed_authors_bytes(s@));
}

/// The byte encoding of a validator transaction: a tag byte, then its digest.
pub open spec fn vtxn_bytes(t: ValidatorTransaction) -> Seq<u8> {
    match t {
        ValidatorTransaction::DkgResult(h) => seq![0u8] + h.spec_bytes(),
        ValidatorTransaction::ObservedJwkUpdate(h) => seq![1u8] + h.spec_bytes(),
    }
}

/// The byte encoding of the validator transactions of a list, in order.
pub open spec fn vtxns_items(s: Seq<ValidatorTransaction>) -> Seq<u8>
    decreases s.len(),
{
    if s.len() == 0 {
        Seq::empty()
    } else {
        vtxns_items(s.drop_last()) + vtxn_bytes(s.last())
    }
}

/// The byte encoding of a list of validator transactions: its length, then its entries.
pub open spec fn vtxns_bytes(s: Seq<ValidatorTransaction>) -> Seq<u8> {
    u64_be_bytes(s.len() as u64) + vtxns_items(s)
}

/// Appends the byte encoding of a list of validator transactions to `out`.
pub fn push_vtxns(out: &mut Vec<u8>, s: &Vec<ValidatorTransaction>)
    ensures
        final(out)@ == old(out)@ + vtxns_bytes(s@),
{
    push_u64_be(out, s.len() as u64);
    let ghost start = out@;
    let mut i: usize = 0;
    while i < s.len()
        invariant
            i <= s@.len(),
            out@ == start + vtxns_items(s@.take(i as int)),
        decreases s@.len() - i,
    {
        proof {
            assert(s@.take(i + 1).drop_last() =~= s@.take(i as int));
            assert(s@.take(i + 1).last() == s@[i as int]);
        }
        let ghost before = out@;
        match s[i] {
            ValidatorTransaction::DkgResult(h) => {
                out.push(0u8);
                push_hash(out, &h);
            },
            ValidatorTransaction::ObservedJwkUpdate(h) => {
                out.push(1u8);
                push_hash(out, &h);
            },
        }
        assert(out@ =~= before + vtxn_bytes(s@[i as int]));
        assert(out@ =~= start + vtxns_items(s@.take(i + 1)));
        i = i + 1;
    }
    assert(s@.take(i as int) =~= s@);
    assert(out@ =~= old(out)@ + vtxns_bytes(s@));
}

/// The byte encoding of a payload: its transaction count.
pub open spec fn payload_bytes(p: Payload) -> Seq<u8> {
    u64_be_bytes(p.num_txns as u64)
}

/// The byte encoding of a block type: a tag byte, then the fields of the kind.
pub open spec fn block_type_bytes(t: BlockTypeView) -> Seq<u8> {
    match t {
        BlockTypeView::Proposal { payload, author, failed_authors, validator_txns } => seq![0u8]
            + payload_bytes(payload) + account_bytes(author) + failed_authors_bytes(failed_authors)
            + vtxns_bytes(validator_txns),
        BlockTypeView::NilBlock { failed_authors } => seq![1u8] + failed_authors_bytes(failed_authors),
        BlockTypeView::Genesis => seq![2u8],
        BlockTypeView::ProxyBlock {
            validator_txns,
            payload,
            author,
            failed_authors,
            primary_round,
            primary_qc,
        } => seq![3u8] + vtxns_bytes(validator_txns) + payload_bytes(payload) + account_bytes(author)
            + failed_authors_bytes(failed_authors) + u64_be_bytes(primary_round) + opt_qc_bytes(
            primary_qc,
        ),
    }
}

/// The byte encoding of block data: epoch, round, timestamp, parent
/// certificate, then the block type.
pub open spec fn block_data_bytes(d: BlockDataView) -> Seq<u8> {
    u64_be_bytes(d.epoch) + u64_be_bytes(d.round) + u64_be_bytes(d.timestamp_usecs) + qc_bytes(
        d.quorum_cert,
    ) + block_type_bytes(d.block_type)
}

/// The hash of block data: the identifier of the block it makes.
pub open spec fn block_data_hash(d: BlockDataView) -> HashValue {
    domain_hash("BlockData".spec_bytes(), block_data_bytes(d))
}

/// Appends the byte encoding of a block type to `out`.
fn push_block_type(out: &mut Vec<u8>, t: &BlockType)
    ensures
        final(out)@ == old(out)@ + block_type_bytes(t@),
{
    match t {
        BlockType::Proposal { payload, author, failed_authors, validator_txns } => {
            out.push(0u8);
            push_u64_be(out, payload.num_txns as u64);
            push_account(out, author);
            push_failed_authors(out, failed_authors);
            push_vtxns(out, validator_txns);
        },
        BlockType::NilBlock { failed_authors } => {
            out.push(1u8);
            push_failed_authors(out, failed_authors);
        },
        BlockType::Genesis => {
            out.push(2u8);
        },
        BlockType::ProxyBlock {
            validator_txns,
            payload,
            author,
            failed_authors,
            primary_round,
            primary_qc,
        } => {
            out.push(3u8);
            push_vtxns(out, validator_txns);
            push_u64_be(out, payload.num_txns as u64);
            push_account(out, author);
            push_failed_authors(out, failed_authors);
            push_u64_be(out, *primary_round);
            match primary_qc {
                None => {
                    out.push(0u8);
                },
                Some(q) => {
                    out.push(1u8);
                    push_qc(out, q);
                },
            }
        },
    }
    assert(out@ =~= old(out)@ + block_type_bytes(t@));
}

impl BlockData {
    /// The hash of this block data: the identifier of the block it makes.
    pub fn hash(&self) -> (h: HashValue)
        ensures
            h == block_data_hash(self@),
    {
        let mut buf = seeded_buffer("BlockData");
        let ghost seed = buf@;
        push_u64_be(&mut buf, self.epoch);
        push_u64_be(&mut buf, self.round);
        push_u64_be(&mut buf, self.timestamp_usecs);
        push_qc(&mut buf, &self.quorum_cert);
        push_block_type(&mut buf, &self.block_type);
        assert(buf@ =~= seed + block_data_bytes(self@));
        finish_hash(&buf)
    }
}

impl Block {
    /// A block of the given data, identified by the hash of its data.
    pub fn new_proposal(block_data: BlockData) -> (b: Block)
        ensures
            b@ == (BlockView { id: block_data_hash(block_data@), block_data: block_data@ }),
    {
        let id = block_data.hash();
        Block::new(id, block_data)
    }
}

} // verus!
