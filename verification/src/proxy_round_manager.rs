//! The event handling of proxy consensus.
//!
//! The round manager tracks the proxy and primary rounds, aggregates votes
//! and order votes by voting power, marks blocks ordered when an order
//! certificate forms, and produces the ordered proxy blocks message that a
//! primary certificate "cuts". Sending that message over the network and to
//! the primary round manager is left to the caller.
use crate::pair_map::{
    keys_unique, lemma_pairs_contains, lemma_pairs_lookup, lemma_pairs_push, lemma_pairs_remove,
    pairs_to_map,
};
use crate::proxy_block_store::{ProxyBlockStore, ProxyBlockStoreView};
use crate::proxy_error::ProxyConsensusError;
use crate::proxy_leader_election::{ProxyLeaderElection, ProxyLeaderElectionView, leader_of};
use crate::proxy_messages::{
    OrderedProxyBlocksMsg, OrderedProxyBlocksMsgView, ProxyOrderVoteMsg, ProxyProposalMsg,
    ProxyVoteMsg, blocks_view,
};
use crate::proxy_safety_rules::{ProxySafetyRules, ProxySafetyRulesView};
use crate::types::{
    Author, Block, EpochState, HashValue, OrderVote, QuorumCert, Round, TwoChainTimeoutCertificate,
    ValidatorConsensusInfo, ValidatorVerifier, Vote, power_of,
};
use vstd::prelude::*;

verus! {

/// Events sent from primary consensus to proxy consensus.
#[derive(Debug)]
pub enum PrimaryToProxyEvent {
    /// A new primary certificate, which may cut proxy blocks.
    NewPrimaryQC(QuorumCert),
    /// A new primary timeout certificate, which advances the primary round.
    NewPrimaryTC(TwoChainTimeoutCertificate),
    /// Stop proxy consensus.
    Shutdown,
}

/// Events sent from proxy consensus to primary consensus.
#[derive(Debug)]
pub enum ProxyToPrimaryEvent {
    /// Ordered proxy blocks, ready to be aggregated into a primary block.
    OrderedProxyBlocks(OrderedProxyBlocksMsg),
}

/// Network events of proxy consensus, after signature verification.
#[derive(Debug)]
pub enum VerifiedProxyEvent {
    ProxyProposalMsg(ProxyProposalMsg),
    ProxyVoteMsg(ProxyVoteMsg),
    ProxyOrderVoteMsg(ProxyOrderVoteMsg),
}

/// Configuration of the proxy round manager.
#[derive(Clone, Copy, Debug, PartialEq, Eq, Structural)]
pub struct ProxyRoundManagerConfig {
    /// Round timeout, in milliseconds.
    pub round_timeout_ms: u64,
    /// Maximum proxy blocks per primary round before backpressure.
    pub max_blocks_per_primary_round: u64,
    /// Backpressure delay when the limit is reached, in milliseconds.
    pub backpressure_delay_ms: u64,
}

impl Default for ProxyRoundManagerConfig {
    fn default() -> (c: Self)
        ensures
            c == (ProxyRoundManagerConfig {
                round_timeout_ms: 1000,
                max_blocks_per_primary_round: 20,
                backpressure_delay_ms: 50,
            }),
    {
        ProxyRoundManagerConfig {
            round_timeout_ms: 1000,
            max_blocks_per_primary_round: 20,
            backpressure_delay_ms: 50,
        }
    }
}

/// The votes pending for each block, as sequences.
pub open spec fn entry_pairs<T>(s: Seq<(HashValue, Vec<T>)>) -> Seq<(HashValue, Seq<T>)> {
    s.map_values(|p: (HashValue, Vec<T>)| (p.0, p.1@))
}

/// The votes pending for block `id` (none if there are none).
pub open spec fn pending_or_empty<T>(m: Map<HashValue, Seq<T>>, id: HashValue) -> Seq<T> {
    if m.contains_key(id) {
        m[id]
    } else {
        Seq::empty()
    }
}

/// Whether one of the votes is by `author`.
pub open spec fn has_vote_by(votes: Seq<Vote>, author: Author) -> bool {
    exists|i: int| 0 <= i < votes.len() && votes[i].author == author
}

/// Whether one of the order votes is by `author`.
pub open spec fn has_order_vote_by(votes: Seq<OrderVote>, author: Author) -> bool {
    exists|i: int| 0 <= i < votes.len() && votes[i].author == author
}

/// The votes with `vote` added, unless its author already voted: each
/// author counts once.
pub open spec fn votes_adding(votes: Seq<Vote>, vote: Vote) -> Seq<Vote> {
    if has_vote_by(votes, vote.author) {
        votes
    } else {
        votes.push(vote)
    }
}

/// The order votes with `ov` added, unless its author already order-voted.
pub open spec fn order_votes_adding(votes: Seq<OrderVote>, ov: OrderVote) -> Seq<OrderVote> {
    if has_order_vote_by(votes, ov.author) {
        votes
    } else {
        votes.push(ov)
    }
}

/// No author occurs twice among the votes.
pub open spec fn vote_authors_distinct(votes: Seq<Vote>) -> bool {
    forall|i: int, j: int|
        0 <= i < votes.len() && 0 <= j < votes.len() && i != j ==> votes[i].author != votes[j].author
}

/// No author occurs twice among the order votes.
pub open spec fn order_vote_authors_distinct(votes: Seq<OrderVote>) -> bool {
    forall|i: int, j: int|
        0 <= i < votes.len() && 0 <= j < votes.len() && i != j ==> votes[i].author != votes[j].author
}

/// The voting power of a sequence of votes: the sum of their authors' voting
/// powers, a vote of a non-validator counting zero.
pub open spec fn votes_power(votes: Seq<Vote>, infos: Seq<ValidatorConsensusInfo>) -> int
    decreases votes.len(),
{
    if votes.len() == 0 {
        0
    } else {
        votes_power(votes.drop_last(), infos) + match power_of(infos, votes.last().author) {
            Some(p) => p as int,
            None => 0,
        }
    }
}

/// The voting power of a sequence of order votes.
pub open spec fn order_votes_power(votes: Seq<OrderVote>, infos: Seq<ValidatorConsensusInfo>) -> int
    decreases votes.len(),
{
    if votes.len() == 0 {
        0
    } else {
        order_votes_power(votes.drop_last(), infos) + match power_of(infos, votes.last().author) {
            Some(p) => p as int,
            None => 0,
        }
    }
}

/// What happens to an order vote, in the order of the decisions.
pub enum OrderVoteOutcome {
    /// The order votes of the block do not reach a quorum yet.
    Pending,
    /// An order certificate forms, but the block carries no primary certificate
    /// (or is not stored): nothing is cut.
    OrderedWithoutCut,
    /// A cut, but no block is ordered for the primary round it cuts.
    NothingToForward,
    /// A cut: the ordered blocks of the primary round that the block's primary
    /// certificate cuts are forwarded, with that certificate.
    Forward(OrderedProxyBlocksMsgView),
}

/// The model of a [`ProxyRoundManager`].
pub struct ProxyRoundManagerView {
    pub epoch: u64,
    pub validator_infos: Seq<ValidatorConsensusInfo>,
    pub quorum_voting_power: u128,
    pub block_store: ProxyBlockStoreView,
    pub current_round: Round,
    pub leader_election: ProxyLeaderElectionView,
    pub safety_rules: ProxySafetyRulesView,
    pub config: ProxyRoundManagerConfig,
    pub author: Author,
    pub pending_votes: Map<HashValue, Seq<Vote>>,
    pub pending_order_votes: Map<HashValue, Seq<OrderVote>>,
    pub primary_round: Round,
    pub latest_primary_qc: Option<QuorumCert>,
    pub pending_primary_qc: Option<QuorumCert>,
}

impl ProxyRoundManagerView {
    /// The state after a primary certificate: it advances the primary round
    /// when it certifies the round before a later one.
    pub open spec fn after_primary_qc(self, qc: QuorumCert) -> ProxyRoundManagerView {
        let new_primary_round = qc.vote_data.proposed.round + 1;
        if new_primary_round > self.primary_round {
            ProxyRoundManagerView {
                primary_round: new_primary_round as Round,
                latest_primary_qc: Some(qc),
                pending_primary_qc: Some(qc),
                block_store: self.block_store.with_primary_qc(qc),
                ..self
            }
        } else {
            self
        }
    }

    /// Whether a primary timeout certificate shuts proxy consensus down: its
    /// round is at or after the current primary round.
    pub open spec fn tc_triggers_shutdown(self, tc: TwoChainTimeoutCertificate) -> bool {
        tc.round >= self.primary_round
    }

    /// The state after a primary timeout certificate: it advances the primary
    /// round when it is for a round at or after the current one.
    pub open spec fn after_primary_tc(self, tc: TwoChainTimeoutCertificate) -> ProxyRoundManagerView {
        let new_primary_round = tc.round + 1;
        if new_primary_round > self.primary_round {
            ProxyRoundManagerView {
                primary_round: new_primary_round as Round,
                block_store: self.block_store.with_primary_tc(tc),
                ..self
            }
        } else {
            self
        }
    }

    /// The state after a vote: it joins the pending votes of its block (unless
    /// its author already voted for the block), which are dropped once they
    /// reach a quorum.
    pub open spec fn after_vote(self, vote: Vote) -> ProxyRoundManagerView {
        let id = vote.vote_data.proposed.id;
        let votes = votes_adding(pending_or_empty(self.pending_votes, id), vote);
        if votes_power(votes, self.validator_infos) >= self.quorum_voting_power {
            ProxyRoundManagerView { pending_votes: self.pending_votes.remove(id), ..self }
        } else {
            ProxyRoundManagerView { pending_votes: self.pending_votes.insert(id, votes), ..self }
        }
    }

    /// The store after an order certificate on block `id`: a stored proxy
    /// block is marked ordered in its own primary round.
    pub open spec fn store_after_order(self, id: HashValue) -> ProxyBlockStoreView {
        if self.block_store.blocks.contains_key(id) && self.block_store.blocks[id].primary_round() is Some {
            self.block_store.with_ordered_mark(id, self.block_store.blocks[id].primary_round()->0)
        } else {
            self.block_store
        }
    }

    /// The pending order votes of block `id` with `ov` added, unless its
    /// author already order-voted for the block.
    pub open spec fn order_votes_with(self, ov: OrderVote) -> Seq<OrderVote> {
        order_votes_adding(pending_or_empty(self.pending_order_votes, ov.ledger_info.commit_info.id), ov)
    }

    /// Whether `ov` completes an order certificate on a stored block that
    /// carries a primary certificate.
    pub open spec fn order_vote_cuts(self, ov: OrderVote) -> bool {
        let id = ov.ledger_info.commit_info.id;
        &&& order_votes_power(self.order_votes_with(ov), self.validator_infos) >= self.quorum_voting_power
        &&& self.block_store.blocks.contains_key(id)
        &&& self.block_store.blocks[id].primary_qc() is Some
    }

    /// The primary certificate that a cutting order vote's block carries.
    pub open spec fn cutting_qc(self, ov: OrderVote) -> QuorumCert {
        self.block_store.blocks[ov.ledger_info.commit_info.id].primary_qc()->0
    }

    /// What becomes of an order vote.
    pub open spec fn order_vote_outcome(self, ov: OrderVote) -> OrderVoteOutcome {
        let id = ov.ledger_info.commit_info.id;
        if order_votes_power(self.order_votes_with(ov), self.validator_infos) < self.quorum_voting_power {
            OrderVoteOutcome::Pending
        } else if !self.order_vote_cuts(ov) {
            OrderVoteOutcome::OrderedWithoutCut
        } else {
            let pq = self.cutting_qc(ov);
            let pr = (pq.vote_data.proposed.round + 1) as Round;
            let blocks = self.store_after_order(id).ordered_blocks(pr);
            if blocks.len() == 0 {
                OrderVoteOutcome::NothingToForward
            } else {
                OrderVoteOutcome::Forward(
                    OrderedProxyBlocksMsgView { proxy_blocks: blocks, primary_round: pr, primary_qc: pq },
                )
            }
        }
    }

    /// The state after an order vote: it joins the pending order votes of its
    /// block; at a quorum the block is marked ordered in its primary round (if
    /// stored) and the pending order votes are dropped; a forward consumes the
    /// pending primary certificate.
    pub open spec fn after_order_vote(self, ov: OrderVote) -> ProxyRoundManagerView {
        let id = ov.ledger_info.commit_info.id;
        match self.order_vote_outcome(ov) {
            OrderVoteOutcome::Pending => ProxyRoundManagerView {
                pending_order_votes: self.pending_order_votes.insert(id, self.order_votes_with(ov)),
                ..self
            },
            OrderVoteOutcome::Forward(_) => ProxyRoundManagerView {
                block_store: self.store_after_order(id),
                pending_order_votes: self.pending_order_votes.remove(id),
                pending_primary_qc: None,
                ..self
            },
            _ => ProxyRoundManagerView {
                block_store: self.store_after_order(id),
                pending_order_votes: self.pending_order_votes.remove(id),
                ..self
            },
        }
    }

    /// Whether the round after a cutting certificate's round fits a round number.
    pub open spec fn cut_round_fits(self, ov: OrderVote) -> bool {
        self.order_vote_cuts(ov) ==> self.cutting_qc(ov).vote_data.proposed.round < u64::MAX
    }
}

/// Takes the entry of block `id` out of a pending list, giving its items.
fn take_entry<T>(pending: &mut Vec<(HashValue, Vec<T>)>, id: HashValue) -> (items: Vec<T>)
    requires
        keys_unique(entry_pairs(old(pending)@)),
    ensures
        keys_unique(entry_pairs(final(pending)@)),
        pairs_to_map(entry_pairs(final(pending)@)) == pairs_to_map(entry_pairs(old(pending)@)).remove(
            id,
        ),
        items@ == pending_or_empty(pairs_to_map(entry_pairs(old(pending)@)), id),
{
    let ghost pairs = entry_pairs(pending@);
    let mut i: usize = 0;
    while i < pending.len()
        invariant
            i <= pending@.len(),
            pairs == entry_pairs(pending@),
            pairs == entry_pairs(old(pending)@),
            pending@ == old(pending)@,
            keys_unique(pairs),
            forall|k: int| 0 <= k < i ==> pending@[k].0 != id,
        decreases pending@.len() - i,
    {
        if pending[i].0 == id {
            proof {
                lemma_pairs_lookup(pairs, id);
                assert(pairs[i as int].0 == id);
                crate::pair_map::lemma_pairs_index(pairs, i as int);
                lemma_pairs_remove(pairs, i as int);
            }
            let (_, items) = pending.remove(i);
            assert(entry_pairs(pending@) =~= pairs.remove(i as int));
            return items;
        }
        i = i + 1;
    }
    proof {
        lemma_pairs_contains(pairs, id);
        assert forall|k: int| 0 <= k < pairs.len() implies pairs[k].0 != id by {
            assert(pairs[k].0 == pending@[k].0);
        }
        assert(pairs_to_map(pairs).remove(id) =~= pairs_to_map(pairs));
    }
    Vec::new()
}

/// Puts the items of block `id` into a pending list that has no entry for it.
fn put_entry<T>(pending: &mut Vec<(HashValue, Vec<T>)>, id: HashValue, items: Vec<T>)
    requires
        keys_unique(entry_pairs(old(pending)@)),
        !pairs_to_map(entry_pairs(old(pending)@)).contains_key(id),
    ensures
        keys_unique(entry_pairs(final(pending)@)),
        pairs_to_map(entry_pairs(final(pending)@)) == pairs_to_map(entry_pairs(old(pending)@)).insert(
            id,
            items@,
        ),
{
    let ghost pairs = entry_pairs(pending@);
    let ghost seq_items = items@;
    proof {
        lemma_pairs_push(pairs, id, seq_items);
    }
    pending.push((id, items));
    assert(entry_pairs(pending@) =~= pairs.push((id, seq_items)));
}

/// Whether one of the votes is by `author`.
fn any_vote_by(votes: &Vec<Vote>, author: Author) -> (b: bool)
    ensures
        b == has_vote_by(votes@, author),
{
    let mut i: usize = 0;
    while i < votes.len()
        invariant
            i <= votes@.len(),
            forall|k: int| 0 <= k < i ==> votes@[k].author != author,
        decreases votes@.len() - i,
    {
        if votes[i].author == author {
            return true;
        }
        i = i + 1;
    }
    false
}

/// Whether one of the order votes is by `author`.
fn any_order_vote_by(votes: &Vec<OrderVote>, author: Author) -> (b: bool)
    ensures
        b == has_order_vote_by(votes@, author),
{
    let mut i: usize = 0;
    while i < votes.len()
        invariant
            i <= votes@.len(),
            forall|k: int| 0 <= k < i ==> votes@[k].author != author,
        decreases votes@.len() - i,
    {
        if votes[i].author == author {
            return true;
        }
        i = i + 1;
    }
    false
}

/// The voting power of a list of votes.
fn power_of_votes(verifier: &ValidatorVerifier, votes: &Vec<Vote>) -> (p: u128)
    ensures
        p == votes_power(votes@, verifier.validator_infos@),
{
    let mut total: u128 = 0;
    let mut i: usize = 0;
    while i < votes.len()
        invariant
            i <= votes@.len(),
            total == votes_power(votes@.take(i as int), verifier.validator_infos@),
            total <= i * 0xffff_ffff_ffff_ffffu128,
        decreases votes@.len() - i,
    {
        proof {
            assert(votes@.take(i + 1).drop_last() =~= votes@.take(i as int));
        }
        match verifier.get_voting_power(&votes[i].author) {
            Some(p) => {
                total = total + p as u128;
            },
            None => {},
        }
        i = i + 1;
    }
    assert(votes@.take(i as int) =~= votes@);
    total
}

/// The voting power of a list of order votes.
fn power_of_order_votes(verifier: &ValidatorVerifier, votes: &Vec<OrderVote>) -> (p: u128)
    ensures
        p == order_votes_power(votes@, verifier.validator_infos@),
{
    let mut total: u128 = 0;
    let mut i: usize = 0;
    while i < votes.len()
        invariant
            i <= votes@.len(),
            total == order_votes_power(votes@.take(i as int), verifier.validator_infos@),
            total <= i * 0xffff_ffff_ffff_ffffu128,
        decreases votes@.len() - i,
    {
        proof {
            assert(votes@.take(i + 1).drop_last() =~= votes@.take(i as int));
        }
        match verifier.get_voting_power(&votes[i].author) {
            Some(p) => {
                total = total + p as u128;
            },
            None => {},
        }
        i = i + 1;
    }
    assert(votes@.take(i as int) =~= votes@);
    total
}

/// The event handling of proxy consensus.
#[derive(Debug)]
pub struct ProxyRoundManager {
    epoch_state: EpochState,
    block_store: ProxyBlockStore,
    current_round: Round,
    leader_election: ProxyLeaderElection,
    safety_rules: ProxySafetyRules,
    config: ProxyRoundManagerConfig,
    author: Author,
    /// Votes being aggregated, by block identifier (distinct identifiers).
    pending_votes: Vec<(HashValue, Vec<Vote>)>,
    /// Order votes being aggregated, by block identifier (distinct identifiers).
    pending_order_votes: Vec<(HashValue, Vec<OrderVote>)>,
    /// The current primary round.
    primary_round: Round,
    /// The latest primary certificate received.
    latest_primary_qc: Option<QuorumCert>,
    /// A primary certificate not yet attached to a proposal.
    pending_primary_qc: Option<QuorumCert>,
}

impl View for ProxyRoundManager {
    type V = ProxyRoundManagerView;

    closed spec fn view(&self) -> ProxyRoundManagerView {
        ProxyRoundManagerView {
            epoch: self.epoch_state.epoch,
            validator_infos: self.epoch_state.verifier.validator_infos@,
            quorum_voting_power: self.epoch_state.verifier.quorum_voting_power,
            block_store: self.block_store@,
            current_round: self.current_round,
            leader_election: self.leader_election@,
            safety_rules: self.safety_rules@,
            config: self.config,
            author: self.author,
            pending_votes: pairs_to_map(entry_pairs(self.pending_votes@)),
            pending_order_votes: pairs_to_map(entry_pairs(self.pending_order_votes@)),
            primary_round: self.primary_round,
            latest_primary_qc: self.latest_primary_qc,
            pending_primary_qc: self.pending_primary_qc,
        }
    }
}

impl ProxyRoundManager {
    /// The well-formedness of the round manager.
    pub closed spec fn wf(&self) -> bool {
        &&& self.block_store.wf()
        &&& self.leader_election.wf()
        &&& keys_unique(entry_pairs(self.pending_votes@))
        &&& keys_unique(entry_pairs(self.pending_order_votes@))
    }

    /// A round manager with no pending votes and no primary certificate yet.
    pub fn new(
        epoch_state: EpochState,
        block_store: ProxyBlockStore,
        leader_election: ProxyLeaderElection,
        safety_rules: ProxySafetyRules,
        config: ProxyRoundManagerConfig,
        author: Author,
        initial_round: Round,
        initial_primary_round: Round,
    ) -> (m: Self)
        requires
            block_store.wf(),
            leader_election.wf(),
        ensures
            m.wf(),
            m@ == (ProxyRoundManagerView {
                epoch: epoch_state.epoch,
                validator_infos: epoch_state.verifier.validator_infos@,
                quorum_voting_power: epoch_state.verifier.quorum_voting_power,
                block_store: block_store@,
                current_round: initial_round,
                leader_election: leader_election@,
                safety_rules: safety_rules@,
                config,
                author,
                pending_votes: Map::empty(),
                pending_order_votes: Map::empty(),
                primary_round: initial_primary_round,
                latest_primary_qc: None,
                pending_primary_qc: None,
            }),
    {
        let m = ProxyRoundManager {
            epoch_state,
            block_store,
            current_round: initial_round,
            leader_election,
            safety_rules,
            config,
            author,
            pending_votes: Vec::new(),
            pending_order_votes: Vec::new(),
            primary_round: initial_primary_round,
            latest_primary_qc: None,
            pending_primary_qc: None,
        };
        assert(entry_pairs(m.pending_votes@) =~= Seq::empty());
        assert(entry_pairs(m.pending_order_votes@) =~= Seq::empty());
        assert(m@.pending_votes =~= Map::empty());
        assert(m@.pending_order_votes =~= Map::empty());
        m
    }

    /// The validator set of the current epoch.
    fn proxy_verifier(&self) -> (v: &ValidatorVerifier)
        ensures
            v.validator_infos@ == self@.validator_infos,
            v.quorum_voting_power == self@.quorum_voting_power,
    {
        &self.epoch_state.verifier
    }

    /// Takes in a primary certificate: if it certifies the round before a
    /// later primary round, that round becomes current and the certificate
    /// becomes the one to attach to the next proposal.
    pub fn process_primary_qc(&mut self, qc: QuorumCert)
        requires
            old(self).wf(),
            qc.vote_data.proposed.round < u64::MAX,
        ensures
            final(self).wf(),
            final(self)@ == old(self)@.after_primary_qc(qc),
    {
        let qc_round = qc.certified_block().round();
        let new_primary_round = qc_round + 1;
        if new_primary_round > self.primary_round {
            self.primary_round = new_primary_round;
            self.latest_primary_qc = Some(qc);
            self.pending_primary_qc = Some(qc);
            self.block_store.update_highest_primary_qc(qc);
        }
    }

    /// Takes in a primary timeout certificate: if it is for a round at or
    /// after the current primary round, the next round becomes current, and
    /// proxy consensus must shut down: the shutdown is returned as an error.
    pub fn process_primary_tc(&mut self, tc: TwoChainTimeoutCertificate) -> (res: Result<
        (),
        ProxyConsensusError,
    >)
        requires
            old(self).wf(),
            tc.round < u64::MAX,
        ensures
            final(self).wf(),
            final(self)@ == old(self)@.after_primary_tc(tc),
            old(self)@.tc_triggers_shutdown(tc) ==> (res matches Err(
                ProxyConsensusError::ShutdownTriggered { tc_round, primary_round },
            ) && tc_round == tc.round && primary_round == old(self)@.primary_round),
            !old(self)@.tc_triggers_shutdown(tc) ==> res is Ok,
    {
        let tc_round = tc.round();
        let primary_round = self.primary_round;
        let new_primary_round = tc_round + 1;
        if new_primary_round > self.primary_round {
            self.primary_round = new_primary_round;
            self.block_store.update_highest_primary_tc(tc);
        }
        if tc_round >= primary_round {
            return Err(ProxyConsensusError::ShutdownTriggered { tc_round, primary_round });
        }
        Ok(())
    }

    /// Handles one event from primary consensus: `Ok(true)` means keep
    /// running; `Ok(false)` means stop (a shutdown, or the channel closed);
    /// a timeout certificate at or after the primary round stops proxy
    /// consensus with `ShutdownTriggered`.
    pub fn process_primary_event(&mut self, event: Option<PrimaryToProxyEvent>) -> (res: Result<
        bool,
        ProxyConsensusError,
    >)
        requires
            old(self).wf(),
            event matches Some(PrimaryToProxyEvent::NewPrimaryQC(qc)) ==> qc.vote_data.proposed.round
                < u64::MAX,
            event matches Some(PrimaryToProxyEvent::NewPrimaryTC(tc)) ==> tc.round < u64::MAX,
        ensures
            final(self).wf(),
            match event {
                Some(PrimaryToProxyEvent::NewPrimaryQC(qc)) => res == Ok::<bool, ProxyConsensusError>(
                    true,
                ) && final(self)@ == old(self)@.after_primary_qc(qc),
                Some(PrimaryToProxyEvent::NewPrimaryTC(tc)) => final(self)@ == old(
                    self,
                )@.after_primary_tc(tc) && (old(self)@.tc_triggers_shutdown(tc) ==> (res matches Err(
                    ProxyConsensusError::ShutdownTriggered { tc_round, primary_round },
                ) && tc_round == tc.round && primary_round == old(self)@.primary_round)) && (!old(
                    self,
                )@.tc_triggers_shutdown(tc) ==> res == Ok::<bool, ProxyConsensusError>(true)),
                _ => res == Ok::<bool, ProxyConsensusError>(false) && final(self)@ == old(self)@,
            },
    {
        match event {
            Some(PrimaryToProxyEvent::NewPrimaryQC(qc)) => {
                self.process_primary_qc(qc);
                Ok(true)
            },
            Some(PrimaryToProxyEvent::NewPrimaryTC(tc)) => {
                match self.process_primary_tc(tc) {
                    Ok(()) => Ok(true),
                    Err(e) => Err(e),
                }
            },
            Some(PrimaryToProxyEvent::Shutdown) => Ok(false),
            None => Ok(false),
        }
    }

    /// Takes in a proxy proposal: its round must be above the current round,
    /// and becomes the current round.
    pub fn process_proxy_proposal_msg(&mut self, proposal_msg: &ProxyProposalMsg, sender: Author) -> (res:
        Result<(), ProxyConsensusError>)
        requires
            old(self).wf(),
        ensures
            final(self).wf(),
            proposal_msg.proposal@.round() <= old(self)@.current_round ==> (res matches Err(
                ProxyConsensusError::RoundTooOld { round, last_voted },
            ) && round == proposal_msg.proposal@.round() && last_voted == old(self)@.current_round
                && final(self)@ == old(self)@),
            proposal_msg.proposal@.round() > old(self)@.current_round ==> (res is Ok && final(self)@
                == (ProxyRoundManagerView {
                current_round: proposal_msg.proposal@.round(),
                ..old(self)@
            })),
    {
        let round = proposal_msg.proposal().round();
        if round <= self.current_round {
            return Err(ProxyConsensusError::RoundTooOld { round, last_voted: self.current_round });
        }
        self.current_round = round;
        Ok(())
    }

    /// Takes in a vote: it joins the pending votes of its block unless its
    /// author already voted for the block; they are dropped once their voting
    /// power reaches a quorum.
    pub fn process_proxy_vote_msg(&mut self, vote_msg: &ProxyVoteMsg, sender: Author) -> (res: Result<
        (),
        ProxyConsensusError,
    >)
        requires
            old(self).wf(),
        ensures
            final(self).wf(),
            res is Ok,
            final(self)@ == old(self)@.after_vote(vote_msg.vote),
    {
        let vote = vote_msg.vote();
        let block_id = vote.vote_data().proposed.id();
        let ghost old_view = self@;
        let mut votes = take_entry(&mut self.pending_votes, block_id);
        if !any_vote_by(&votes, vote.author) {
            votes.push(vote);
        }
        let voting_power = power_of_votes(&self.epoch_state.verifier, &votes);
        let quorum_power = self.epoch_state.verifier.quorum_voting_power();
        if voting_power < quorum_power {
            let ghost vs = votes@;
            put_entry(&mut self.pending_votes, block_id, votes);
            assert(self@.pending_votes =~= old_view.pending_votes.insert(block_id, vs));
        } else {
            assert(self@.pending_votes =~= old_view.pending_votes.remove(block_id));
        }
        Ok(())
    }

    /// Takes in an order vote. When the order votes of its block reach a
    /// quorum, a stored block is marked ordered in its primary round; if the
    /// block carries a primary certificate, the ordered blocks of the primary
    /// round that certificate cuts (its round plus one) are returned with it,
    /// to be forwarded to all primaries.
    pub fn process_proxy_order_vote_msg(
        &mut self,
        order_vote_msg: &ProxyOrderVoteMsg,
        sender: Author,
    ) -> (res: Result<Option<OrderedProxyBlocksMsg>, ProxyConsensusError>)
        requires
            old(self).wf(),
            old(self)@.cut_round_fits(order_vote_msg.order_vote),
        ensures
            final(self).wf(),
            final(self)@ == old(self)@.after_order_vote(order_vote_msg.order_vote),
            match old(self)@.order_vote_outcome(order_vote_msg.order_vote) {
                OrderVoteOutcome::Forward(m) => res matches Ok(Some(msg)) && msg@ == m,
                _ => res matches Ok(None),
            },
    {
        let order_vote = order_vote_msg.order_vote();
        let block_id = order_vote.ledger_info().commit_info.id();
        let ghost old_view = self@;
        let mut votes = take_entry(&mut self.pending_order_votes, block_id);
        if !any_order_vote_by(&votes, order_vote.author) {
            votes.push(order_vote);
        }
        let voting_power = power_of_order_votes(&self.epoch_state.verifier, &votes);
        let quorum_power = self.epoch_state.verifier.quorum_voting_power();
        let ghost vs = votes@;
        if voting_power < quorum_power {
            put_entry(&mut self.pending_order_votes, block_id, votes);
            assert(self@.pending_order_votes =~= old_view.pending_order_votes.insert(block_id, vs));
            return Ok(None);
        }
        assert(self@.pending_order_votes =~= old_view.pending_order_votes.remove(block_id));
        let block = self.block_store.get_block(block_id);
        match block {
            None => Ok(None),
            Some(block) => {
                match block.block_data().primary_round() {
                    Some(block_primary_round) => {
                        let _ = self.block_store.mark_block_ordered(block_id, block_primary_round);
                    },
                    None => {},
                }
                match block.block_data().primary_qc() {
                    None => Ok(None),
                    Some(pq) => {
                        let cut_round = pq.certified_block().round() + 1;
                        Ok(self.forward_ordered_blocks(cut_round, pq))
                    },
                }
            },
        }
    }

    /// The ordered blocks of `primary_round` with the certificate that cut
    /// them, if any block is ordered; forwarding them consumes the pending
    /// primary certificate.
    fn forward_ordered_blocks(&mut self, primary_round: Round, primary_qc: QuorumCert) -> (res: Option<
        OrderedProxyBlocksMsg,
    >)
        requires
            old(self).wf(),
        ensures
            final(self).wf(),
            old(self)@.block_store.ordered_blocks(primary_round).len() == 0 ==> (res is None
                && final(self)@ == old(self)@),
            old(self)@.block_store.ordered_blocks(primary_round).len() > 0 ==> (res matches Some(msg)
                && msg@ == (OrderedProxyBlocksMsgView {
                proxy_blocks: old(self)@.block_store.ordered_blocks(primary_round),
                primary_round,
                primary_qc,
            }) && final(self)@ == (ProxyRoundManagerView { pending_primary_qc: None, ..old(self)@ })),
    {
        let ordered_blocks = self.block_store.get_ordered_blocks(primary_round);
        if ordered_blocks.len() == 0 {
            return None;
        }
        let msg = OrderedProxyBlocksMsg::new(ordered_blocks, primary_round, primary_qc);
        self.pending_primary_qc = None;
        Some(msg)
    }

    /// Enters proxy round `round`.
    pub fn process_new_round(&mut self, round: Round) -> (res: Result<(), ProxyConsensusError>)
        requires
            old(self).wf(),
        ensures
            final(self).wf(),
            res is Ok,
            final(self)@ == (ProxyRoundManagerView { current_round: round, ..old(self)@ }),
    {
        self.current_round = round;
        Ok(())
    }

    /// Whether this node leads proxy round `round`.
    pub fn is_leader(&self, round: Round) -> (b: bool)
        requires
            self.wf(),
        ensures
            b == (leader_of(self@.leader_election.validators, round)
                == self@.leader_election.author),
    {
        self.leader_election.is_leader(round)
    }

    pub fn current_round(&self) -> (r: Round)
        ensures
            r == self@.current_round,
    {
        self.current_round
    }

    pub fn current_primary_round(&self) -> (r: Round)
        ensures
            r == self@.primary_round,
    {
        self.primary_round
    }

    /// Whether a primary certificate waits to be attached to the next proposal.
    pub fn should_attach_primary_qc(&self) -> (b: bool)
        ensures
            b == self@.pending_primary_qc is Some,
    {
        self.pending_primary_qc.is_some()
    }

    /// Takes the primary certificate that waits to be attached to a proposal.
    pub fn take_pending_primary_qc(&mut self) -> (q: Option<QuorumCert>)
        requires
            old(self).wf(),
        ensures
            final(self).wf(),
            q == old(self)@.pending_primary_qc,
            final(self)@ == (ProxyRoundManagerView { pending_primary_qc: None, ..old(self)@ }),
    {
        let q = self.pending_primary_qc;
        self.pending_primary_qc = None;
        q
    }

    pub fn block_store(&self) -> (s: &ProxyBlockStore)
        requires
            self.wf(),
        ensures
            s@ == self@.block_store,
            s.wf(),
    {
        &self.block_store
    }

    pub fn epoch_state(&self) -> (e: &EpochState)
        ensures
            e.epoch == self@.epoch,
            e.verifier.validator_infos@ == self@.validator_infos,
    {
        &self.epoch_state
    }

    pub fn config(&self) -> (c: &ProxyRoundManagerConfig)
        ensures
            *c == self@.config,
    {
        &self.config
    }
}

/// A primary certificate of round `q` makes the primary round `q + 1` if
/// that is later, and becomes the latest certificate and the one to attach;
/// otherwise nothing changes. A timeout certificate of round `t` makes the
/// primary round `t + 1` if that is later. Neither changes the proxy round,
/// the votes or the blocks.
pub proof fn lemma_primary_certificates(v: ProxyRoundManagerView, qc: QuorumCert, tc: TwoChainTimeoutCertificate)
    requires
        qc.vote_data.proposed.round < u64::MAX,
        tc.round < u64::MAX,
    ensures
        qc.vote_data.proposed.round + 1 > v.primary_round ==> {
            &&& v.after_primary_qc(qc).primary_round == qc.vote_data.proposed.round + 1
            &&& v.after_primary_qc(qc).latest_primary_qc == Some(qc)
            &&& v.after_primary_qc(qc).pending_primary_qc == Some(qc)
        },
        qc.vote_data.proposed.round + 1 <= v.primary_round ==> v.after_primary_qc(qc) == v,
        tc.round + 1 > v.primary_round ==> v.after_primary_tc(tc).primary_round == tc.round + 1,
        v.after_primary_qc(qc).current_round == v.current_round,
        v.after_primary_qc(qc).pending_votes == v.pending_votes,
        v.after_primary_qc(qc).block_store.blocks == v.block_store.blocks,
        v.after_primary_tc(tc).current_round == v.current_round,
        v.after_primary_tc(tc).pending_votes == v.pending_votes,
        v.after_primary_tc(tc).block_store.blocks == v.block_store.blocks,
        v.after_primary_tc(tc).latest_primary_qc == v.latest_primary_qc,
{
}

/// A vote joins the pending votes of the block it votes for (unless its
/// author already voted for it); once their voting power reaches the quorum
/// they are dropped, and until then they are kept, with the vote among them.
/// The pending votes of other blocks are untouched.
pub proof fn lemma_vote_aggregation(v: ProxyRoundManagerView, vote: Vote, other: HashValue)
    requires
        other != vote.vote_data.proposed.id,
    ensures
        ({
            let id = vote.vote_data.proposed.id;
            let votes = votes_adding(pending_or_empty(v.pending_votes, id), vote);
            let w = v.after_vote(vote);
            &&& has_vote_by(votes, vote.author)
            &&& votes_power(votes, v.validator_infos) >= v.quorum_voting_power ==> !w.pending_votes.contains_key(
                id,
            )
            &&& votes_power(votes, v.validator_infos) < v.quorum_voting_power ==> w.pending_votes.contains_key(
                id,
            ) && w.pending_votes[id] == votes
            &&& w.pending_votes.contains_key(other) == v.pending_votes.contains_key(other)
            &&& v.pending_votes.contains_key(other) ==> w.pending_votes[other] == v.pending_votes[other]
            &&& w.block_store == v.block_store
            &&& w.primary_round == v.primary_round
        }),
{
    let id = vote.vote_data.proposed.id;
    let p = pending_or_empty(v.pending_votes, id);
    if !has_vote_by(p, vote.author) {
        assert(p.push(vote)[p.len() as int] == vote);
    }
}

/// The voting power of a set of votes adds up its parts: one vote counts its
/// author's power (zero for a non-validator), and two sets joined count the
/// sum of their powers.
pub proof fn lemma_votes_power_adds_up(a: Seq<Vote>, b: Seq<Vote>, vote: Vote, infos: Seq<ValidatorConsensusInfo>)
    ensures
        votes_power(seq![vote], infos) == author_power(infos, vote.author),
        votes_power(a + b, infos) == votes_power(a, infos) + votes_power(b, infos),
    decreases b.len(),
{
    assert(seq![vote].drop_last() =~= Seq::<Vote>::empty());
    assert(votes_power(seq![vote].drop_last(), infos) == 0);
    assert(seq![vote].last() == vote);
    if b.len() == 0 {
        assert(a + b =~= a);
    } else {
        lemma_votes_power_adds_up(a, b.drop_last(), vote, infos);
        assert((a + b).drop_last() =~= a + b.drop_last());
        assert((a + b).last() == b.last());
    }
}

/// The voting power of a set of order votes adds up its parts in the same way.
pub proof fn lemma_order_votes_power_adds_up(
    a: Seq<OrderVote>,
    b: Seq<OrderVote>,
    ov: OrderVote,
    infos: Seq<ValidatorConsensusInfo>,
)
    ensures
        order_votes_power(seq![ov], infos) == author_power(infos, ov.author),
        order_votes_power(a + b, infos) == order_votes_power(a, infos) + order_votes_power(b, infos),
    decreases b.len(),
{
    assert(seq![ov].drop_last() =~= Seq::<OrderVote>::empty());
    assert(order_votes_power(seq![ov].drop_last(), infos) == 0);
    assert(seq![ov].last() == ov);
    if b.len() == 0 {
        assert(a + b =~= a);
    } else {
        lemma_order_votes_power_adds_up(a, b.drop_last(), ov, infos);
        assert((a + b).drop_last() =~= a + b.drop_last());
        assert((a + b).last() == b.last());
    }
}

/// The primary round agrees with the store: one above the highest primary
/// certificate or timeout certificate round.
pub open spec fn primary_round_consistent(v: ProxyRoundManagerView) -> bool {
    v.primary_round == v.block_store.current_primary_round()
}

/// Primary certificates and timeout certificates never lower the primary
/// round, and they keep it equal to one above the highest primary
/// certificate or timeout certificate round.
pub proof fn lemma_primary_round_tracks_certificates(
    v: ProxyRoundManagerView,
    qc: QuorumCert,
    tc: TwoChainTimeoutCertificate,
)
    requires
        qc.vote_data.proposed.round < u64::MAX,
        tc.round < u64::MAX,
    ensures
        v.after_primary_qc(qc).primary_round >= v.primary_round,
        v.after_primary_tc(tc).primary_round >= v.primary_round,
        v.after_primary_qc(qc).primary_round >= qc.vote_data.proposed.round + 1,
        v.after_primary_tc(tc).primary_round >= tc.round + 1,
        primary_round_consistent(v) ==> primary_round_consistent(v.after_primary_qc(qc)),
        primary_round_consistent(v) ==> primary_round_consistent(v.after_primary_tc(tc)),
{
}

/// Every pending vote set is below a quorum.
pub open spec fn pending_votes_below_quorum(v: ProxyRoundManagerView) -> bool {
    forall|id: HashValue|
        #[trigger] v.pending_votes.contains_key(id) ==> votes_power(v.pending_votes[id], v.validator_infos)
            < v.quorum_voting_power
}

/// Every pending order vote set is below a quorum.
pub open spec fn pending_order_votes_below_quorum(v: ProxyRoundManagerView) -> bool {
    forall|id: HashValue|
        #[trigger] v.pending_order_votes.contains_key(id) ==> order_votes_power(
            v.pending_order_votes[id],
            v.validator_infos,
        ) < v.quorum_voting_power
}

/// Votes that reach a quorum are not kept pending: if every pending vote set
/// is below a quorum, it stays so after a vote.
pub proof fn lemma_pending_votes_stay_below_quorum(v: ProxyRoundManagerView, vote: Vote)
    requires
        pending_votes_below_quorum(v),
    ensures
        pending_votes_below_quorum(v.after_vote(vote)),
{
}

/// Order votes that reach a quorum are not kept pending: if every pending
/// order vote set is below a quorum, it stays so after an order vote.
pub proof fn lemma_pending_order_votes_stay_below_quorum(v: ProxyRoundManagerView, ov: OrderVote)
    requires
        pending_order_votes_below_quorum(v),
    ensures
        pending_order_votes_below_quorum(v.after_order_vote(ov)),
{
}

/// A forwarded message carries the primary certificate of the block whose
/// order certificate just formed, and the round that certificate cuts (its
/// round plus one); its blocks are the ordered blocks of that round, after
/// the block is marked ordered in its own primary round; when that primary
/// round is the cut round, the block is the last one forwarded; forwarding
/// consumes the pending primary certificate and changes no round.
pub proof fn lemma_forward_uses_cutting_qc(v: ProxyRoundManagerView, ov: OrderVote)
    requires
        v.order_vote_outcome(ov) is Forward,
        v.cut_round_fits(ov),
    ensures
        ({
            let id = ov.ledger_info.commit_info.id;
            let m = v.order_vote_outcome(ov)->Forward_0;
            let b = v.block_store.blocks[id];
            &&& b.primary_qc() == Some(m.primary_qc)
            &&& m.primary_round == m.primary_qc.vote_data.proposed.round + 1
            &&& m.proxy_blocks.len() > 0
            &&& m.proxy_blocks == v.after_order_vote(ov).block_store.ordered_blocks(m.primary_round)
            &&& v.after_order_vote(ov).pending_primary_qc is None
            &&& v.after_order_vote(ov).primary_round == v.primary_round
            &&& v.after_order_vote(ov).current_round == v.current_round
            &&& b.primary_round() == Some(m.primary_round) ==> m.proxy_blocks.last() == b
        }),
{
    let id = ov.ledger_info.commit_info.id;
    let b = v.block_store.blocks[id];
    if b.primary_round() is Some {
        let pr = b.primary_round()->0;
        let other: Round = if pr == 0 {
            1
        } else {
            0
        };
        crate::proxy_block_store::lemma_mark_then_ordered_blocks(v.block_store, id, pr, other);
    }
}

/// A primary timeout certificate changes the state only when it shuts proxy
/// consensus down: one for a round before the current primary round leaves
/// everything as it was.
pub proof fn lemma_timeout_changes_state_only_on_shutdown(
    v: ProxyRoundManagerView,
    tc: TwoChainTimeoutCertificate,
)
    requires
        tc.round < u64::MAX,
    ensures
        !v.tc_triggers_shutdown(tc) ==> v.after_primary_tc(tc) == v,
        v.tc_triggers_shutdown(tc) ==> v.after_primary_tc(tc).primary_round == tc.round + 1,
{
}

/// Adding a vote keeps the authors distinct.
proof fn lemma_votes_adding_distinct(votes: Seq<Vote>, vote: Vote)
    requires
        vote_authors_distinct(votes),
    ensures
        vote_authors_distinct(votes_adding(votes, vote)),
{
    if !has_vote_by(votes, vote.author) {
        let n = votes.push(vote);
        assert forall|i: int, j: int| 0 <= i < n.len() && 0 <= j < n.len() && i != j implies n[i].author
            != n[j].author by {
            if i == votes.len() {
                assert(n[j] == votes[j]);
            } else if j == votes.len() {
                assert(n[i] == votes[i]);
            } else {
                assert(n[i] == votes[i] && n[j] == votes[j]);
            }
        }
    }
}

/// Adding an order vote keeps the authors distinct.
proof fn lemma_order_votes_adding_distinct(votes: Seq<OrderVote>, ov: OrderVote)
    requires
        order_vote_authors_distinct(votes),
    ensures
        order_vote_authors_distinct(order_votes_adding(votes, ov)),
{
    if !has_order_vote_by(votes, ov.author) {
        let n = votes.push(ov);
        assert forall|i: int, j: int| 0 <= i < n.len() && 0 <= j < n.len() && i != j implies n[i].author
            != n[j].author by {
            if i == votes.len() {
                assert(n[j] == votes[j]);
            } else if j == votes.len() {
                assert(n[i] == votes[i]);
            } else {
                assert(n[i] == votes[i] && n[j] == votes[j]);
            }
        }
    }
}

/// Every pending vote set and order vote set holds at most one vote per author.
pub open spec fn pending_authors_distinct(v: ProxyRoundManagerView) -> bool {
    &&& forall|id: HashValue| #[trigger]
        v.pending_votes.contains_key(id) ==> vote_authors_distinct(v.pending_votes[id])
    &&& forall|id: HashValue| #[trigger]
        v.pending_order_votes.contains_key(id) ==> order_vote_authors_distinct(v.pending_order_votes[id])
}

/// Each author counts once toward a quorum: the pending votes and order votes
/// of a block never hold two votes of one author, after any vote or order vote.
pub proof fn lemma_each_author_counts_once(v: ProxyRoundManagerView, vote: Vote, ov: OrderVote)
    requires
        pending_authors_distinct(v),
    ensures
        pending_authors_distinct(v.after_vote(vote)),
        pending_authors_distinct(v.after_order_vote(ov)),
{
    let id = vote.vote_data.proposed.id;
    let p = pending_or_empty(v.pending_votes, id);
    assert(vote_authors_distinct(p)) by {
        if !v.pending_votes.contains_key(id) {
            assert(p =~= Seq::<Vote>::empty());
        }
    }
    lemma_votes_adding_distinct(p, vote);
    let oid = ov.ledger_info.commit_info.id;
    let q = pending_or_empty(v.pending_order_votes, oid);
    assert(order_vote_authors_distinct(q)) by {
        if !v.pending_order_votes.contains_key(oid) {
            assert(q =~= Seq::<OrderVote>::empty());
        }
    }
    lemma_order_votes_adding_distinct(q, ov);
}

/// The state after a sequence of order votes, in order.
pub open spec fn after_order_votes(v: ProxyRoundManagerView, ovs: Seq<OrderVote>) -> ProxyRoundManagerView
    decreases ovs.len(),
{
    if ovs.len() == 0 {
        v
    } else {
        after_order_votes(v, ovs.drop_last()).after_order_vote(ovs.last())
    }
}

/// The voting power of `author` alone (zero for a non-validator).
pub open spec fn author_power(infos: Seq<ValidatorConsensusInfo>, author: Author) -> int {
    match power_of(infos, author) {
        Some(p) => p as int,
        None => 0,
    }
}

/// Block `id` has no pending order vote, or only one, by `author`.
pub open spec fn pending_only_by(v: ProxyRoundManagerView, id: HashValue, author: Author) -> bool {
    let p = pending_or_empty(v.pending_order_votes, id);
    p.len() == 0 || (p.len() == 1 && p[0].author == author)
}

/// One order vote by an author whose power alone is below a quorum, on a
/// block whose only pending order vote (if any) is by that author, stays pending.
proof fn lemma_single_author_order_vote(w: ProxyRoundManagerView, ov: OrderVote, author: Author, id: HashValue)
    requires
        ov.author == author,
        ov.ledger_info.commit_info.id == id,
        pending_only_by(w, id, author),
        author_power(w.validator_infos, author) < w.quorum_voting_power,
    ensures
        w.order_vote_outcome(ov) is Pending,
        w.after_order_vote(ov).block_store == w.block_store,
        w.after_order_vote(ov).pending_primary_qc == w.pending_primary_qc,
        w.after_order_vote(ov).validator_infos == w.validator_infos,
        w.after_order_vote(ov).quorum_voting_power == w.quorum_voting_power,
        pending_only_by(w.after_order_vote(ov), id, author),
{
    let p = pending_or_empty(w.pending_order_votes, id);
    let added = w.order_votes_with(ov);
    if p.len() == 0 {
        assert(!has_order_vote_by(p, author));
        assert(added == p.push(ov));
    } else {
        assert(p[0].author == author);
        assert(has_order_vote_by(p, author));
        assert(added == p);
    }
    assert(added.len() == 1 && added[0].author == author);
    assert(added.drop_last() =~= Seq::<OrderVote>::empty());
    assert(order_votes_power(added.drop_last(), w.validator_infos) == 0);
    assert(added.last() == added[0]);
    assert(order_votes_power(added, w.validator_infos) == author_power(w.validator_infos, author));
    assert(pending_or_empty(w.after_order_vote(ov).pending_order_votes, id) == added);
}

/// Order votes by one author never make an order certificate: if that
/// author's power alone is below a quorum and the block has no pending order
/// vote of another author, any number of order votes by that author on the
/// block all stay pending; nothing is marked ordered, nothing is forwarded,
/// and the pending primary certificate stays.
pub proof fn lemma_one_author_never_orders(
    v: ProxyRoundManagerView,
    ovs: Seq<OrderVote>,
    author: Author,
    id: HashValue,
    k: int,
)
    requires
        forall|i: int|
            0 <= i < ovs.len() ==> (#[trigger] ovs[i]).author == author && ovs[i].ledger_info.commit_info.id
                == id,
        author_power(v.validator_infos, author) < v.quorum_voting_power,
        pending_only_by(v, id, author),
        0 <= k <= ovs.len(),
    ensures
        after_order_votes(v, ovs.take(k)).block_store == v.block_store,
        after_order_votes(v, ovs.take(k)).pending_primary_qc == v.pending_primary_qc,
        after_order_votes(v, ovs.take(k)).validator_infos == v.validator_infos,
        after_order_votes(v, ovs.take(k)).quorum_voting_power == v.quorum_voting_power,
        pending_only_by(after_order_votes(v, ovs.take(k)), id, author),
        forall|i: int|
            0 <= i < k ==> (#[trigger] after_order_votes(v, ovs.take(i)).order_vote_outcome(ovs[i])) is Pending,
    decreases k,
{
    if k == 0 {
        assert(ovs.take(0) =~= Seq::<OrderVote>::empty());
    } else {
        lemma_one_author_never_orders(v, ovs, author, id, k - 1);
        let w = after_order_votes(v, ovs.take(k - 1));
        assert(ovs.take(k).drop_last() =~= ovs.take(k - 1));
        assert(ovs.take(k).last() == ovs[k - 1]);
        lemma_single_author_order_vote(w, ovs[k - 1], author, id);
    }
}

} // verus!
