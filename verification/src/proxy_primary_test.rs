//! End-to-end test definitions for proxy primary consensus, and the checks
//! they make on the metrics that the validators report.
//!
//! Reading the metrics from the validators, and waiting for the test
//! duration, are done by the test driver; the aggregation of the readings and
//! the pass/fail decisions are here.
use vstd::prelude::*;

verus! {

/// The happy path test: proxies produce blocks faster than primaries, forward
/// them, and primaries keep committing.
#[derive(Clone, Copy, Debug, PartialEq, Eq, Structural)]
pub struct ProxyPrimaryHappyPathTest {
    /// Expected minimum transactions per second.
    pub min_tps: usize,
    /// Expected minimum proxy blocks per primary round.
    pub min_proxy_blocks_per_round: usize,
}

impl Default for ProxyPrimaryHappyPathTest {
    fn default() -> (t: Self)
        ensures
            t == (ProxyPrimaryHappyPathTest { min_tps: 1000, min_proxy_blocks_per_round: 3 }),
    {
        ProxyPrimaryHappyPathTest { min_tps: 1000, min_proxy_blocks_per_round: 3 }
    }
}

impl ProxyPrimaryHappyPathTest {
    pub fn name(&self) -> (n: &'static str)
        ensures
            n@ == "proxy primary happy path test"@,
    {
        "proxy primary happy path test"
    }
}

/// The load test: proxies keep producing and forwarding blocks under load.
#[derive(Clone, Copy, Debug, PartialEq, Eq, Structural)]
pub struct ProxyPrimaryLoadTest {
    /// Target transactions per second.
    pub target_tps: usize,
    /// Maximum acceptable latency, in milliseconds.
    pub max_latency_ms: u64,
}

impl Default for ProxyPrimaryLoadTest {
    fn default() -> (t: Self)
        ensures
            t == (ProxyPrimaryLoadTest { target_tps: 5000, max_latency_ms: 3000 }),
    {
        ProxyPrimaryLoadTest { target_tps: 5000, max_latency_ms: 3000 }
    }
}

impl ProxyPrimaryLoadTest {
    pub fn name(&self) -> (n: &'static str)
        ensures
            n@ == "proxy primary load test"@,
    {
        "proxy primary load test"
    }
}

/// Proxy consensus metrics: of one validator, or summed over validators.
#[derive(Clone, Copy, Debug, PartialEq, Eq, Structural)]
pub struct ProxyConsensusMetrics {
    pub proposals_sent: i64,
    pub votes_sent: i64,
    pub qcs_formed: i64,
    pub blocks_ordered: i64,
    pub blocks_forwarded: i64,
    pub backpressure_events: i64,
    pub timeout_all: i64,
    pub timeout_leader: i64,
}

impl Default for ProxyConsensusMetrics {
    fn default() -> (m: Self)
        ensures
            m == zero_proxy_metrics(),
    {
        ProxyConsensusMetrics {
            proposals_sent: 0,
            votes_sent: 0,
            qcs_formed: 0,
            blocks_ordered: 0,
            blocks_forwarded: 0,
            backpressure_events: 0,
            timeout_all: 0,
            timeout_leader: 0,
        }
    }
}

/// Primary consensus metrics: of one validator, or the maximum over validators.
#[derive(Clone, Copy, Debug, PartialEq, Eq, Structural)]
pub struct PrimaryConsensusMetrics {
    pub last_committed_round: i64,
    pub current_round: i64,
    pub committed_blocks: i64,
}

impl Default for PrimaryConsensusMetrics {
    fn default() -> (m: Self)
        ensures
            m == (PrimaryConsensusMetrics { last_committed_round: 0, current_round: 0, committed_blocks: 0 }),
    {
        PrimaryConsensusMetrics { last_committed_round: 0, current_round: 0, committed_blocks: 0 }
    }
}

/// All proxy metrics zero.
pub open spec fn zero_proxy_metrics() -> ProxyConsensusMetrics {
    ProxyConsensusMetrics {
        proposals_sent: 0,
        votes_sent: 0,
        qcs_formed: 0,
        blocks_ordered: 0,
        blocks_forwarded: 0,
        backpressure_events: 0,
        timeout_all: 0,
        timeout_leader: 0,
    }
}

/// The field-wise sum of two readings, as integers.
pub open spec fn add_metrics(a: ProxyConsensusMetrics, b: ProxyConsensusMetrics) -> (
    int,
    int,
    int,
    int,
    int,
    int,
    int,
    int,
) {
    (
        a.proposals_sent + b.proposals_sent,
        a.votes_sent + b.votes_sent,
        a.qcs_formed + b.qcs_formed,
        a.blocks_ordered + b.blocks_ordered,
        a.blocks_forwarded + b.blocks_forwarded,
        a.backpressure_events + b.backpressure_events,
        a.timeout_all + b.timeout_all,
        a.timeout_leader + b.timeout_leader,
    )
}

/// Whether an integer fits an `i64`.
pub open spec fn fits_i64(x: int) -> bool {
    i64::MIN <= x <= i64::MAX
}

/// Whether the field-wise sum of two readings fits.
pub open spec fn sum_fits(a: ProxyConsensusMetrics, b: ProxyConsensusMetrics) -> bool {
    let s = add_metrics(a, b);
    &&& fits_i64(s.0)
    &&& fits_i64(s.1)
    &&& fits_i64(s.2)
    &&& fits_i64(s.3)
    &&& fits_i64(s.4)
    &&& fits_i64(s.5)
    &&& fits_i64(s.6)
    &&& fits_i64(s.7)
}

/// The field-wise sum of two readings whose sum fits.
pub open spec fn sum_metrics(a: ProxyConsensusMetrics, b: ProxyConsensusMetrics) -> ProxyConsensusMetrics {
    let s = add_metrics(a, b);
    ProxyConsensusMetrics {
        proposals_sent: s.0 as i64,
        votes_sent: s.1 as i64,
        qcs_formed: s.2 as i64,
        blocks_ordered: s.3 as i64,
        blocks_forwarded: s.4 as i64,
        backpressure_events: s.5 as i64,
        timeout_all: s.6 as i64,
        timeout_leader: s.7 as i64,
    }
}

/// The running totals of the readings, from the first one on.
pub open spec fn running_total(readings: Seq<ProxyConsensusMetrics>) -> ProxyConsensusMetrics
    decreases readings.len(),
{
    if readings.len() == 0 {
        zero_proxy_metrics()
    } else {
        sum_metrics(running_total(readings.drop_last()), readings.last())
    }
}

/// Whether every running total fits (adding the readings one by one never overflows).
pub open spec fn totals_fit(readings: Seq<ProxyConsensusMetrics>) -> bool
    decreases readings.len(),
{
    if readings.len() == 0 {
        true
    } else {
        totals_fit(readings.drop_last()) && sum_fits(running_total(readings.drop_last()), readings.last())
    }
}

/// Sums the proxy metrics that each validator reported.
pub fn aggregate_proxy_metrics(readings: &Vec<ProxyConsensusMetrics>) -> (m: ProxyConsensusMetrics)
    requires
        totals_fit(readings@),
    ensures
        m == running_total(readings@),
{
    let mut metrics = ProxyConsensusMetrics::default();
    let mut i: usize = 0;
    while i < readings.len()
        invariant
            i <= readings@.len(),
            totals_fit(readings@),
            metrics == running_total(readings@.take(i as int)),
        decreases readings@.len() - i,
    {
        proof {
            let t = readings@.take(i + 1);
            assert(t.drop_last() =~= readings@.take(i as int));
            lemma_totals_fit_prefix(readings@, i + 1);
        }
        let r = readings[i];
        metrics.proposals_sent = metrics.proposals_sent + r.proposals_sent;
        metrics.votes_sent = metrics.votes_sent + r.votes_sent;
        metrics.qcs_formed = metrics.qcs_formed + r.qcs_formed;
        metrics.blocks_ordered = metrics.blocks_ordered + r.blocks_ordered;
        metrics.blocks_forwarded = metrics.blocks_forwarded + r.blocks_forwarded;
        metrics.backpressure_events = metrics.backpressure_events + r.backpressure_events;
        metrics.timeout_all = metrics.timeout_all + r.timeout_all;
        metrics.timeout_leader = metrics.timeout_leader + r.timeout_leader;
        i = i + 1;
    }
    assert(readings@.take(i as int) =~= readings@);
    metrics
}

/// The totals of a prefix fit when those of the whole sequence do.
proof fn lemma_totals_fit_prefix(readings: Seq<ProxyConsensusMetrics>, k: int)
    requires
        0 <= k <= readings.len(),
        totals_fit(readings),
    ensures
        totals_fit(readings.take(k)),
    decreases readings.len() - k,
{
    if k < readings.len() {
        lemma_totals_fit_prefix(readings, k + 1);
        assert(readings.take(k + 1).drop_last() =~= readings.take(k));
    } else {
        assert(readings.take(k) =~= readings);
    }
}

/// The larger of two readings.
pub open spec fn max_i64(a: i64, b: i64) -> i64 {
    if a >= b {
        a
    } else {
        b
    }
}

/// The field-wise maximum of the readings, starting from zero.
pub open spec fn max_primary(readings: Seq<PrimaryConsensusMetrics>) -> PrimaryConsensusMetrics
    decreases readings.len(),
{
    if readings.len() == 0 {
        PrimaryConsensusMetrics { last_committed_round: 0, current_round: 0, committed_blocks: 0 }
    } else {
        let m = max_primary(readings.drop_last());
        let r = readings.last();
        PrimaryConsensusMetrics {
            last_committed_round: max_i64(m.last_committed_round, r.last_committed_round),
            current_round: max_i64(m.current_round, r.current_round),
            committed_blocks: max_i64(m.committed_blocks, r.committed_blocks),
        }
    }
}

/// Takes the field-wise maximum of the primary metrics that each validator
/// reported (and of zero).
pub fn aggregate_primary_metrics(readings: &Vec<PrimaryConsensusMetrics>) -> (m: PrimaryConsensusMetrics)
    ensures
        m == max_primary(readings@),
{
    let mut metrics = PrimaryConsensusMetrics::default();
    let mut i: usize = 0;
    while i < readings.len()
        invariant
            i <= readings@.len(),
            metrics == max_primary(readings@.take(i as int)),
        decreases readings@.len() - i,
    {
        proof {
            assert(readings@.take(i + 1).drop_last() =~= readings@.take(i as int));
        }
        let r = readings[i];
        if r.last_committed_round > metrics.last_committed_round {
            metrics.last_committed_round = r.last_committed_round;
        }
        if r.current_round > metrics.current_round {
            metrics.current_round = r.current_round;
        }
        if r.committed_blocks > metrics.committed_blocks {
            metrics.committed_blocks = r.committed_blocks;
        }
        i = i + 1;
    }
    assert(readings@.take(i as int) =~= readings@);
    metrics
}

/// The failure of the happy path test, if any: the first unmet requirement.
pub open spec fn happy_path_failure(proxy: ProxyConsensusMetrics, primary: PrimaryConsensusMetrics) -> Option<Seq<char>> {
    if !(proxy.proposals_sent > 0) {
        Some("Proxy consensus: no proposals sent"@)
    } else if !(proxy.votes_sent > 0) {
        Some("Proxy consensus: no votes sent"@)
    } else if !(proxy.qcs_formed > 0) {
        Some("Proxy consensus: no QCs formed"@)
    } else if !(proxy.blocks_ordered > 0) {
        Some("Proxy consensus: no blocks ordered"@)
    } else if !(proxy.blocks_forwarded > 0) {
        Some("Proxy consensus: no blocks forwarded to primaries"@)
    } else if !(primary.last_committed_round > 0) {
        Some("Primary consensus: no blocks committed (last_committed_round=0)"@)
    } else if !(primary.committed_blocks > 0) {
        Some("Primary consensus: committed_blocks=0"@)
    } else {
        None
    }
}

/// Checks the happy path requirements on the aggregated metrics: both
/// consensus layers made progress.
pub fn check_happy_path(proxy: &ProxyConsensusMetrics, primary: &PrimaryConsensusMetrics) -> (res: Result<(), String>)
    ensures
        res is Ok <==> (proxy.proposals_sent > 0 && proxy.votes_sent > 0 && proxy.qcs_formed > 0
            && proxy.blocks_ordered > 0 && proxy.blocks_forwarded > 0 && primary.last_committed_round > 0
            && primary.committed_blocks > 0),
        match happy_path_failure(*proxy, *primary) {
            None => res is Ok,
            Some(m) => res matches Err(e) && e@ == m,
        },
{
    if !(proxy.proposals_sent > 0) {
        return Err("Proxy consensus: no proposals sent".to_string());
    }
    if !(proxy.votes_sent > 0) {
        return Err("Proxy consensus: no votes sent".to_string());
    }
    if !(proxy.qcs_formed > 0) {
        return Err("Proxy consensus: no QCs formed".to_string());
    }
    if !(proxy.blocks_ordered > 0) {
        return Err("Proxy consensus: no blocks ordered".to_string());
    }
    if !(proxy.blocks_forwarded > 0) {
        return Err("Proxy consensus: no blocks forwarded to primaries".to_string());
    }
    if !(primary.last_committed_round > 0) {
        return Err("Primary consensus: no blocks committed (last_committed_round=0)".to_string());
    }
    if !(primary.committed_blocks > 0) {
        return Err("Primary consensus: committed_blocks=0".to_string());
    }
    Ok(())
}

/// The changes of the load test metrics over the test window.
#[derive(Clone, Copy, Debug, PartialEq, Eq, Structural)]
pub struct LoadTestDeltas {
    pub proposals: i64,
    pub ordered: i64,
    pub forwarded: i64,
    pub backpressure: i64,
    pub primary_committed: i64,
}

/// Whether the changes over the test window fit an `i64`.
pub open spec fn deltas_fit(
    start_proxy: ProxyConsensusMetrics,
    start_primary: PrimaryConsensusMetrics,
    end_proxy: ProxyConsensusMetrics,
    end_primary: PrimaryConsensusMetrics,
) -> bool {
    &&& fits_i64(end_proxy.proposals_sent - start_proxy.proposals_sent)
    &&& fits_i64(end_proxy.blocks_ordered - start_proxy.blocks_ordered)
    &&& fits_i64(end_proxy.blocks_forwarded - start_proxy.blocks_forwarded)
    &&& fits_i64(end_proxy.backpressure_events - start_proxy.backpressure_events)
    &&& fits_i64(end_primary.committed_blocks - start_primary.committed_blocks)
}

/// The changes of the metrics between the start and the end of the test window.
pub fn load_test_deltas(
    start_proxy: &ProxyConsensusMetrics,
    start_primary: &PrimaryConsensusMetrics,
    end_proxy: &ProxyConsensusMetrics,
    end_primary: &PrimaryConsensusMetrics,
) -> (d: LoadTestDeltas)
    requires
        deltas_fit(*start_proxy, *start_primary, *end_proxy, *end_primary),
    ensures
        d.proposals == end_proxy.proposals_sent - start_proxy.proposals_sent,
        d.ordered == end_proxy.blocks_ordered - start_proxy.blocks_ordered,
        d.forwarded == end_proxy.blocks_forwarded - start_proxy.blocks_forwarded,
        d.backpressure == end_proxy.backpressure_events - start_proxy.backpressure_events,
        d.primary_committed == end_primary.committed_blocks - start_primary.committed_blocks,
{
    LoadTestDeltas {
        proposals: end_proxy.proposals_sent - start_proxy.proposals_sent,
        ordered: end_proxy.blocks_ordered - start_proxy.blocks_ordered,
        forwarded: end_proxy.blocks_forwarded - start_proxy.blocks_forwarded,
        backpressure: end_proxy.backpressure_events - start_proxy.backpressure_events,
        primary_committed: end_primary.committed_blocks - start_primary.committed_blocks,
    }
}

/// The failure of the load test, if any: the first unmet requirement.
pub open spec fn load_test_failure(d: LoadTestDeltas) -> Option<Seq<char>> {
    if !(d.proposals > 0) {
        Some("Proxy consensus: no proposals sent during test window"@)
    } else if !(d.ordered > 0) {
        Some("Proxy consensus: no blocks ordered during test window"@)
    } else if !(d.forwarded > 0) {
        Some("Proxy consensus: no blocks forwarded during test window"@)
    } else if !(d.primary_committed > 0) {
        Some("Primary consensus: no blocks committed during test window"@)
    } else {
        None
    }
}

/// Checks the load test requirements on the changes over the test window:
/// both consensus layers made progress during it.
pub fn check_load_test(d: &LoadTestDeltas) -> (res: Result<(), String>)
    ensures
        res is Ok <==> (d.proposals > 0 && d.ordered > 0 && d.forwarded > 0 && d.primary_committed > 0),
        match load_test_failure(*d) {
            None => res is Ok,
            Some(m) => res matches Err(e) && e@ == m,
        },
{
    if !(d.proposals > 0) {
        return Err("Proxy consensus: no proposals sent during test window".to_string());
    }
    if !(d.ordered > 0) {
        return Err("Proxy consensus: no blocks ordered during test window".to_string());
    }
    if !(d.forwarded > 0) {
        return Err("Proxy consensus: no blocks forwarded during test window".to_string());
    }
    if !(d.primary_committed > 0) {
        return Err("Primary consensus: no blocks committed during test window".to_string());
    }
    Ok(())
}


/// The load test passes exactly when proposals, ordered blocks, forwarded
/// blocks and primary commits all rose during the test window. A failing
/// window names the first requirement it misses, in that order: proposals,
/// then ordering, then forwarding, then primary commits; the backpressure
/// change never matters.
pub proof fn lemma_load_test_requirements(d: LoadTestDeltas, backpressure: i64)
    ensures
        load_test_failure(d) is None <==> (d.proposals > 0 && d.ordered > 0 && d.forwarded > 0
            && d.primary_committed > 0),
        d.proposals <= 0 ==> load_test_failure(d) == Some(
            "Proxy consensus: no proposals sent during test window"@,
        ),
        d.proposals > 0 && d.ordered <= 0 ==> load_test_failure(d) == Some(
            "Proxy consensus: no blocks ordered during test window"@,
        ),
        d.proposals > 0 && d.ordered > 0 && d.forwarded <= 0 ==> load_test_failure(d) == Some(
            "Proxy consensus: no blocks forwarded during test window"@,
        ),
        d.proposals > 0 && d.ordered > 0 && d.forwarded > 0 && d.primary_committed <= 0
            ==> load_test_failure(d) == Some(
            "Primary consensus: no blocks committed during test window"@,
        ),
        load_test_failure(d) == load_test_failure(LoadTestDeltas { backpressure, ..d }),
{
}

/// The happy path test passes exactly when every proxy counter (proposals,
/// votes, certificates, ordered and forwarded blocks) and both primary
/// commit readings are positive. A failing run names the first requirement
/// it misses, in that order; the other readings never matter.
pub proof fn lemma_happy_path_requirements(
    proxy: ProxyConsensusMetrics,
    primary: PrimaryConsensusMetrics,
    other_proxy: ProxyConsensusMetrics,
    other_primary: PrimaryConsensusMetrics,
)
    ensures
        happy_path_failure(proxy, primary) is None <==> (proxy.proposals_sent > 0 && proxy.votes_sent > 0
            && proxy.qcs_formed > 0 && proxy.blocks_ordered > 0 && proxy.blocks_forwarded > 0
            && primary.last_committed_round > 0 && primary.committed_blocks > 0),
        proxy.proposals_sent <= 0 ==> happy_path_failure(proxy, primary) == Some(
            "Proxy consensus: no proposals sent"@,
        ),
        proxy.proposals_sent > 0 && proxy.votes_sent <= 0 ==> happy_path_failure(proxy, primary) == Some(
            "Proxy consensus: no votes sent"@,
        ),
        proxy.proposals_sent > 0 && proxy.votes_sent > 0 && proxy.qcs_formed <= 0 ==> happy_path_failure(
            proxy,
            primary,
        ) == Some("Proxy consensus: no QCs formed"@),
        proxy.proposals_sent > 0 && proxy.votes_sent > 0 && proxy.qcs_formed > 0 && proxy.blocks_ordered
            <= 0 ==> happy_path_failure(proxy, primary) == Some("Proxy consensus: no blocks ordered"@),
        proxy.proposals_sent > 0 && proxy.votes_sent > 0 && proxy.qcs_formed > 0 && proxy.blocks_ordered > 0
            && proxy.blocks_forwarded <= 0 ==> happy_path_failure(proxy, primary) == Some(
            "Proxy consensus: no blocks forwarded to primaries"@,
        ),
        proxy.proposals_sent > 0 && proxy.votes_sent > 0 && proxy.qcs_formed > 0 && proxy.blocks_ordered > 0
            && proxy.blocks_forwarded > 0 && primary.last_committed_round <= 0 ==> happy_path_failure(
            proxy,
            primary,
        ) == Some("Primary consensus: no blocks committed (last_committed_round=0)"@),
        proxy.proposals_sent > 0 && proxy.votes_sent > 0 && proxy.qcs_formed > 0 && proxy.blocks_ordered > 0
            && proxy.blocks_forwarded > 0 && primary.last_committed_round > 0 && primary.committed_blocks
            <= 0 ==> happy_path_failure(proxy, primary) == Some("Primary consensus: committed_blocks=0"@),
        happy_path_failure(proxy, primary) == happy_path_failure(
            ProxyConsensusMetrics {
                proposals_sent: proxy.proposals_sent,
                votes_sent: proxy.votes_sent,
                qcs_formed: proxy.qcs_formed,
                blocks_ordered: proxy.blocks_ordered,
                blocks_forwarded: proxy.blocks_forwarded,
                ..other_proxy
            },
            PrimaryConsensusMetrics {
                last_committed_round: primary.last_committed_round,
                committed_blocks: primary.committed_blocks,
                ..other_primary
            },
        ),
{
}


/// The sum, over the readings, of one counter.
pub open spec fn counter_sum(readings: Seq<ProxyConsensusMetrics>, f: spec_fn(ProxyConsensusMetrics) -> int) -> int
    decreases readings.len(),
{
    if readings.len() == 0 {
        0
    } else {
        counter_sum(readings.drop_last(), f) + f(readings.last())
    }
}

/// Aggregating proxy readings sums each counter over all validators: every
/// field of the total is the sum of that field over the readings.
pub proof fn lemma_proxy_totals_are_sums(readings: Seq<ProxyConsensusMetrics>)
    requires
        totals_fit(readings),
    ensures
        running_total(readings).proposals_sent == counter_sum(readings, |m: ProxyConsensusMetrics| m.proposals_sent as int),
        running_total(readings).votes_sent == counter_sum(readings, |m: ProxyConsensusMetrics| m.votes_sent as int),
        running_total(readings).qcs_formed == counter_sum(readings, |m: ProxyConsensusMetrics| m.qcs_formed as int),
        running_total(readings).blocks_ordered == counter_sum(readings, |m: ProxyConsensusMetrics| m.blocks_ordered as int),
        running_total(readings).blocks_forwarded == counter_sum(readings, |m: ProxyConsensusMetrics| m.blocks_forwarded as int),
        running_total(readings).backpressure_events == counter_sum(
            readings,
            |m: ProxyConsensusMetrics| m.backpressure_events as int,
        ),
        running_total(readings).timeout_all == counter_sum(readings, |m: ProxyConsensusMetrics| m.timeout_all as int),
        running_total(readings).timeout_leader == counter_sum(readings, |m: ProxyConsensusMetrics| m.timeout_leader as int),
    decreases readings.len(),
{
    if readings.len() > 0 {
        lemma_proxy_totals_are_sums(readings.drop_last());
    }
}

/// Aggregating primary readings takes, for each field, the largest value any
/// validator reported, or zero if that is larger: the result is at least
/// zero and at least every reading, and is zero or one of the readings.
pub proof fn lemma_primary_readings_are_maxima(readings: Seq<PrimaryConsensusMetrics>)
    ensures
        ({
            let m = max_primary(readings);
            &&& m.last_committed_round >= 0 && m.current_round >= 0 && m.committed_blocks >= 0
            &&& forall|i: int|
                0 <= i < readings.len() ==> m.last_committed_round >= (#[trigger] readings[i]).last_committed_round
                    && m.current_round >= readings[i].current_round && m.committed_blocks
                    >= readings[i].committed_blocks
            &&& (m.last_committed_round == 0 || exists|i: int|
                0 <= i < readings.len() && m.last_committed_round == (#[trigger] readings[i]).last_committed_round)
            &&& (m.current_round == 0 || exists|i: int|
                0 <= i < readings.len() && m.current_round == (#[trigger] readings[i]).current_round)
            &&& (m.committed_blocks == 0 || exists|i: int|
                0 <= i < readings.len() && m.committed_blocks == (#[trigger] readings[i]).committed_blocks)
        }),
    decreases readings.len(),
{
    if readings.len() > 0 {
        let t = readings.drop_last();
        lemma_primary_readings_are_maxima(t);
        let n = readings.len() - 1;
        assert forall|i: int| 0 <= i < t.len() implies #[trigger] t[i] == readings[i] by {}
        let mt = max_primary(t);
        if mt.last_committed_round != 0 && mt.last_committed_round != readings[n].last_committed_round {
            let i = choose|i: int| 0 <= i < t.len() && mt.last_committed_round == (#[trigger] t[i]).last_committed_round;
            assert(readings[i] == t[i]);
        }
        if mt.current_round != 0 && mt.current_round != readings[n].current_round {
            let i = choose|i: int| 0 <= i < t.len() && mt.current_round == (#[trigger] t[i]).current_round;
            assert(readings[i] == t[i]);
        }
        if mt.committed_blocks != 0 && mt.committed_blocks != readings[n].committed_blocks {
            let i = choose|i: int| 0 <= i < t.len() && mt.committed_blocks == (#[trigger] t[i]).committed_blocks;
            assert(readings[i] == t[i]);
        }
        assert(readings.last() == readings[n]);
        let m = max_primary(readings);
        assert forall|i: int| 0 <= i < readings.len() implies m.last_committed_round
            >= (#[trigger] readings[i]).last_committed_round && m.current_round >= readings[i].current_round
            && m.committed_blocks >= readings[i].committed_blocks by {
            if i < n {
                assert(t[i] == readings[i]);
            }
        }
        if m.last_committed_round == readings[n].last_committed_round {
            assert(0 <= n < readings.len() && m.last_committed_round == readings[n].last_committed_round);
        }
        if m.current_round == readings[n].current_round {
            assert(0 <= n < readings.len() && m.current_round == readings[n].current_round);
        }
        if m.committed_blocks == readings[n].committed_blocks {
            assert(0 <= n < readings.len() && m.committed_blocks == readings[n].committed_blocks);
        }
    }
}

} // verus!
