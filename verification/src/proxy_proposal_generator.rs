//! Construction of proxy block proposals.
//!
//! Generating a proposal takes these steps, in order: claim the round (a
//! round is proposed at most once), decide on backpressure, check the
//! primary certificate to attach, then (outside this library) wait out the
//! backpressure delay, read the clock and pull a payload, and finally build
//! the block data from what was pulled.
use crate::primary_integration::expected_qc_round;
use crate::proxy_error::ProxyConsensusError;
use crate::proxy_messages::OptProxyBlockData;
use crate::types::{
    Author, BlockData, BlockDataView, BlockInfo, BlockTypeView, Payload, QuorumCert, Round,
    ValidatorTransaction,
};
use vstd::prelude::*;

verus! {

/// Configuration of proxy proposal backpressure.
#[derive(Clone, Copy, Debug, PartialEq, Eq, Structural)]
pub struct ProxyBackpressureConfig {
    /// Proxy blocks per primary round from which backpressure applies.
    pub max_blocks_per_primary_round: u64,
    /// The delay applied under backpressure, in milliseconds.
    pub backpressure_delay_ms: u64,
}

impl Default for ProxyBackpressureConfig {
    fn default() -> (c: Self)
        ensures
            c == (ProxyBackpressureConfig { max_blocks_per_primary_round: 20, backpressure_delay_ms: 50 }),
    {
        ProxyBackpressureConfig { max_blocks_per_primary_round: 20, backpressure_delay_ms: 50 }
    }
}

/// Whether validator transactions may be proposed.
#[derive(Clone, Copy, Debug, PartialEq, Eq, Structural)]
pub struct ValidatorTxnConfig {
    pub enabled: bool,
}

impl ValidatorTxnConfig {
    /// The configuration that proposes no validator transactions.
    pub fn default_disabled() -> (c: Self)
        ensures
            !c.enabled,
    {
        ValidatorTxnConfig { enabled: false }
    }

    /// The configuration that proposes validator transactions.
    pub fn default_enabled() -> (c: Self)
        ensures
            c.enabled,
    {
        ValidatorTxnConfig { enabled: true }
    }

    pub fn enabled(&self) -> (b: bool)
        ensures
            b == self.enabled,
    {
        self.enabled
    }
}

/// The transactions a payload pull must leave out.
#[derive(Clone, Copy, Debug, PartialEq, Eq, Structural)]
pub enum PayloadFilter {
    /// Leave out nothing.
    Empty,
}

/// A payload source that has no transactions.
#[derive(Debug)]
pub struct StubProxyPayloadClient;

impl StubProxyPayloadClient {
    pub fn new() -> (c: Self) {
        StubProxyPayloadClient
    }

    /// Pulls a payload: always no validator transaction and an empty payload.
    pub fn pull_proxy_payload(
        &self,
        max_txns: u64,
        max_size_bytes: u64,
        exclude_filter: PayloadFilter,
    ) -> (r: Result<(Vec<ValidatorTransaction>, Payload), String>)
        ensures
            r matches Ok((v, p)) && v@.len() == 0 && p.num_txns == 0,
    {
        Ok((Vec::new(), Payload::empty()))
    }
}

impl Default for StubProxyPayloadClient {
    fn default() -> (c: Self) {
        StubProxyPayloadClient
    }
}

/// The validator transactions a proposal keeps: all that were pulled if they
/// are enabled, none otherwise.
pub open spec fn kept_vtxns(enabled: bool, pulled: Seq<ValidatorTransaction>) -> Seq<ValidatorTransaction> {
    if enabled {
        pulled
    } else {
        Seq::empty()
    }
}

/// A primary certificate may be attached to a proposal of primary round `r`
/// only if it certifies the round before `r`.
pub open spec fn primary_qc_attachable(primary_round: Round, primary_qc: Option<QuorumCert>) -> bool {
    primary_qc matches Some(q) ==> q.vote_data.proposed.round == expected_qc_round(primary_round)
}

/// Whether a claim of `round` is refused: a proposal was generated for this
/// round or a later one.
pub open spec fn proposal_refused(g: ProxyProposalGeneratorView, round: Round) -> bool {
    g.last_round_generated >= round
}

/// The generator after a claim of `round`: an accepted claim makes it the
/// last round generated; a refused one changes nothing.
pub open spec fn after_start(g: ProxyProposalGeneratorView, round: Round) -> ProxyProposalGeneratorView {
    if proposal_refused(g, round) {
        g
    } else {
        ProxyProposalGeneratorView { last_round_generated: round, ..g }
    }
}

/// Proposal generator for proxy consensus.
#[derive(Debug)]
pub struct ProxyProposalGenerator {
    author: Author,
    /// The last round a proposal was generated for.
    last_round_generated: Round,
    backpressure_config: ProxyBackpressureConfig,
    max_block_txns: u64,
    max_block_bytes: u64,
    vtxn_config: ValidatorTxnConfig,
}

/// The model of a [`ProxyProposalGenerator`].
pub struct ProxyProposalGeneratorView {
    pub author: Author,
    pub last_round_generated: Round,
    pub backpressure_config: ProxyBackpressureConfig,
    pub max_block_txns: u64,
    pub max_block_bytes: u64,
    pub vtxn_config: ValidatorTxnConfig,
}

impl View for ProxyProposalGenerator {
    type V = ProxyProposalGeneratorView;

    closed spec fn view(&self) -> ProxyProposalGeneratorView {
        ProxyProposalGeneratorView {
            author: self.author,
            last_round_generated: self.last_round_generated,
            backpressure_config: self.backpressure_config,
            max_block_txns: self.max_block_txns,
            max_block_bytes: self.max_block_bytes,
            vtxn_config: self.vtxn_config,
        }
    }
}

impl ProxyProposalGenerator {
    /// A generator that has proposed no round yet.
    pub fn new(
        author: Author,
        backpressure_config: ProxyBackpressureConfig,
        max_block_txns: u64,
        max_block_bytes: u64,
        vtxn_config: ValidatorTxnConfig,
    ) -> (g: Self)
        ensures
            g@ == (ProxyProposalGeneratorView {
                author,
                last_round_generated: 0,
                backpressure_config,
                max_block_txns,
                max_block_bytes,
                vtxn_config,
            }),
    {
        ProxyProposalGenerator {
            author,
            last_round_generated: 0,
            backpressure_config,
            max_block_txns,
            max_block_bytes,
            vtxn_config,
        }
    }

    /// Claims `round` for a proposal: refused if a proposal was generated for
    /// this round or a later one; otherwise it becomes the last round generated.
    pub fn start_proposal(&mut self, round: Round) -> (res: Result<(), ProxyConsensusError>)
        ensures
            proposal_refused(old(self)@, round) ==> (res matches Err(
                ProxyConsensusError::AlreadyProposed { round: r },
            ) && r == round),
            !proposal_refused(old(self)@, round) ==> res is Ok,
            final(self)@ == after_start(old(self)@, round),
    {
        if self.last_round_generated >= round {
            return Err(ProxyConsensusError::AlreadyProposed { round });
        }
        self.last_round_generated = round;
        Ok(())
    }

    /// Whether the ordered blocks of the primary round call for the backpressure delay.
    pub fn should_apply_backpressure(&self, blocks_for_primary_round: u64) -> (b: bool)
        ensures
            b == (blocks_for_primary_round >= self@.backpressure_config.max_blocks_per_primary_round),
    {
        blocks_for_primary_round >= self.backpressure_config.max_blocks_per_primary_round
    }

    /// The backpressure delay, in milliseconds.
    pub fn backpressure_delay_ms(&self) -> (d: u64)
        ensures
            d == self@.backpressure_config.backpressure_delay_ms,
    {
        self.backpressure_config.backpressure_delay_ms
    }

    /// Checks that an attached primary certificate certifies the round before
    /// the primary round.
    pub fn check_primary_qc(primary_round: Round, primary_qc: Option<QuorumCert>) -> (res: Result<
        (),
        ProxyConsensusError,
    >)
        ensures
            primary_qc_attachable(primary_round, primary_qc) ==> res is Ok,
            !primary_qc_attachable(primary_round, primary_qc) ==> (res matches Err(
                ProxyConsensusError::PrimaryQCRoundMismatch { expected, got },
            ) && expected == expected_qc_round(primary_round) && got
                == primary_qc->0.vote_data.proposed.round),
    {
        match primary_qc {
            Some(pqc) => {
                let expected = primary_round.saturating_sub(1);
                if pqc.certified_block().round() != expected {
                    return Err(
                        ProxyConsensusError::PrimaryQCRoundMismatch {
                            expected,
                            got: pqc.certified_block().round(),
                        },
                    );
                }
                Ok(())
            },
            None => Ok(()),
        }
    }

    /// The transactions the payload pull must leave out: none, as proxy
    /// blocks are held in memory only.
    pub fn build_payload_filter(&self, parent_block_info: &BlockInfo) -> (res: Result<
        PayloadFilter,
        ProxyConsensusError,
    >)
        ensures
            res matches Ok(f) && f == PayloadFilter::Empty,
    {
        Ok(PayloadFilter::Empty)
    }

    /// The payload limits: at most this many transactions and bytes.
    pub fn payload_limits(&self) -> (l: (u64, u64))
        ensures
            l == (self@.max_block_txns, self@.max_block_bytes),
    {
        (self.max_block_txns, self.max_block_bytes)
    }

    /// Keeps the pulled validator transactions if they are enabled.
    fn filter_vtxns(&self, validator_txns: Vec<ValidatorTransaction>) -> (v: Vec<ValidatorTransaction>)
        ensures
            v@ == kept_vtxns(self@.vtxn_config.enabled, validator_txns@),
    {
        if self.vtxn_config.enabled() {
            validator_txns
        } else {
            let v: Vec<ValidatorTransaction> = Vec::new();
            assert(v@ =~= Seq::<ValidatorTransaction>::empty());
            v
        }
    }

    /// Builds the data of a proxy block on `hqc` from the pulled payload: a
    /// failed pull is a payload pull error; otherwise the block has the
    /// certificate's epoch, the given round and timestamp, this author, the
    /// kept validator transactions, the payload, no failed authors, the
    /// primary round and the primary certificate.
    pub fn finish_proxy_proposal(
        &self,
        round: Round,
        hqc: QuorumCert,
        primary_round: Round,
        primary_qc: Option<QuorumCert>,
        timestamp_usecs: u64,
        pulled: Result<(Vec<ValidatorTransaction>, Payload), String>,
    ) -> (res: Result<BlockData, ProxyConsensusError>)
        ensures
            !primary_qc_attachable(primary_round, primary_qc) ==> (res matches Err(
                ProxyConsensusError::PrimaryQCRoundMismatch { expected, got },
            ) && expected == expected_qc_round(primary_round) && got
                == primary_qc->0.vote_data.proposed.round),
            primary_qc_attachable(primary_round, primary_qc) ==> match pulled {
                Err(e) => res matches Err(ProxyConsensusError::PayloadPullError(m)) && m@ == e@,
                Ok((vtxns, payload)) => res matches Ok(d) && d@ == (BlockDataView {
                    epoch: hqc.vote_data.proposed.epoch,
                    round,
                    timestamp_usecs,
                    quorum_cert: hqc,
                    block_type: BlockTypeView::ProxyBlock {
                        validator_txns: kept_vtxns(self@.vtxn_config.enabled, vtxns@),
                        payload,
                        author: self@.author,
                        failed_authors: Seq::empty(),
                        primary_round,
                        primary_qc,
                    },
                }),
            },
            res matches Ok(d) ==> primary_qc_attachable(
                crate::types::spec_primary_round(d@.block_type)->0,
                crate::types::spec_primary_qc(d@.block_type),
            ),
    {
        match Self::check_primary_qc(primary_round, primary_qc) {
            Ok(()) => {},
            Err(e) => {
                return Err(e);
            },
        }
        let (validator_txns, payload) = match pulled {
            Err(e) => {
                return Err(ProxyConsensusError::PayloadPullError(e));
            },
            Ok(p) => p,
        };
        let validator_txns = self.filter_vtxns(validator_txns);
        let failed_authors: Vec<(Round, Author)> = Vec::new();
        let d = BlockData::new_from_proxy(
            hqc.certified_block().epoch(),
            round,
            timestamp_usecs,
            hqc,
            validator_txns,
            payload,
            self.author,
            failed_authors,
            primary_round,
            primary_qc,
        );
        assert(d@.block_type->ProxyBlock_failed_authors =~= Seq::<(Round, Author)>::empty());
        Ok(d)
    }

    /// Builds the data of an optimistic proxy block (named by its parent's
    /// block info, with the grandparent's certificate) from the pulled payload.
    pub fn finish_opt_proxy_proposal(
        &self,
        epoch: u64,
        round: Round,
        parent: BlockInfo,
        grandparent_qc: QuorumCert,
        primary_round: Round,
        primary_qc: Option<QuorumCert>,
        timestamp_usecs: u64,
        pulled: Result<(Vec<ValidatorTransaction>, Payload), String>,
    ) -> (res: Result<OptProxyBlockData, ProxyConsensusError>)
        ensures
            !primary_qc_attachable(primary_round, primary_qc) ==> (res matches Err(
                ProxyConsensusError::PrimaryQCRoundMismatch { expected, got },
            ) && expected == expected_qc_round(primary_round) && got
                == primary_qc->0.vote_data.proposed.round),
            primary_qc_attachable(primary_round, primary_qc) ==> match pulled {
                Err(e) => res matches Err(ProxyConsensusError::PayloadPullError(m)) && m@ == e@,
                Ok((vtxns, payload)) => res matches Ok(d) && d.validator_txns@ == kept_vtxns(
                    self@.vtxn_config.enabled,
                    vtxns@,
                ) && d.payload == payload && d.author == self@.author && d.epoch == epoch && d.round
                    == round && d.timestamp_usecs == timestamp_usecs && d.parent == parent
                    && d.grandparent_qc == grandparent_qc && d.primary_round == primary_round
                    && d.primary_qc == primary_qc,
            },
    {
        match Self::check_primary_qc(primary_round, primary_qc) {
            Ok(()) => {},
            Err(e) => {
                return Err(e);
            },
        }
        let (validator_txns, payload) = match pulled {
            Err(e) => {
                return Err(ProxyConsensusError::PayloadPullError(e));
            },
            Ok(p) => p,
        };
        let validator_txns = self.filter_vtxns(validator_txns);
        Ok(
            OptProxyBlockData::new(
                validator_txns,
                payload,
                self.author,
                epoch,
                round,
                timestamp_usecs,
                parent,
                grandparent_qc,
                primary_round,
                primary_qc,
            ),
        )
    }

    pub fn author(&self) -> (a: Author)
        ensures
            a == self@.author,
    {
        self.author
    }
}

/// What a proposal may carry: every pulled validator transaction when they
/// are enabled and none otherwise; a primary certificate only if it
/// certifies the round right before the primary round (round zero for
/// primary round zero), and no certificate is always allowed.
pub proof fn lemma_proposal_content_rules(
    enabled: bool,
    pulled: Seq<ValidatorTransaction>,
    primary_round: Round,
    qc: QuorumCert,
)
    ensures
        kept_vtxns(true, pulled) == pulled,
        kept_vtxns(false, pulled).len() == 0,
        kept_vtxns(enabled, pulled).len() <= pulled.len(),
        primary_qc_attachable(primary_round, None),
        primary_round > 0 ==> (primary_qc_attachable(primary_round, Some(qc)) <==> qc.vote_data.proposed.round
            + 1 == primary_round),
        primary_round == 0 ==> (primary_qc_attachable(primary_round, Some(qc)) <==> qc.vote_data.proposed.round
            == 0),
{
}

/// The generator after the claims of a sequence of rounds, in order.
pub open spec fn after_starts(g: ProxyProposalGeneratorView, rounds: Seq<Round>) -> ProxyProposalGeneratorView
    decreases rounds.len(),
{
    if rounds.len() == 0 {
        g
    } else {
        after_start(after_starts(g, rounds.drop_last()), rounds.last())
    }
}

/// Claiming the first `k + 1` rounds is claiming the first `k`, then round `k`.
proof fn lemma_after_starts_take(g: ProxyProposalGeneratorView, rounds: Seq<Round>, k: int)
    requires
        0 <= k < rounds.len(),
    ensures
        after_starts(g, rounds.take(k + 1)) == after_start(after_starts(g, rounds.take(k)), rounds[k]),
{
    assert(rounds.take(k + 1).drop_last() =~= rounds.take(k));
}

/// Once round `rounds[i]` is claimed, the last round generated stays at or above it.
proof fn lemma_claim_stays(g: ProxyProposalGeneratorView, rounds: Seq<Round>, i: int, k: int)
    requires
        0 <= i < k <= rounds.len(),
        !proposal_refused(after_starts(g, rounds.take(i)), rounds[i]),
    ensures
        after_starts(g, rounds.take(k)).last_round_generated >= rounds[i],
    decreases k - i,
{
    lemma_after_starts_take(g, rounds, k - 1);
    if k > i + 1 {
        lemma_claim_stays(g, rounds, i, k - 1);
    }
}

/// A round is proposed at most once: over any sequence of calls of
/// `start_proposal`, once a round is claimed, every later claim of that round
/// or an earlier one is refused.
pub proof fn lemma_no_double_proposal(g: ProxyProposalGeneratorView, rounds: Seq<Round>, i: int, j: int)
    requires
        0 <= i < j < rounds.len(),
        !proposal_refused(after_starts(g, rounds.take(i)), rounds[i]),
        rounds[j] <= rounds[i],
    ensures
        proposal_refused(after_starts(g, rounds.take(j)), rounds[j]),
{
    lemma_claim_stays(g, rounds, i, j);
}

} // verus!
