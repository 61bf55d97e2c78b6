//! The forge suites of proxy primary consensus: which network test a suite
//! runs, on how many validators, with which node configuration and which
//! success criteria. Building and running the swarm is done by the test
//! driver.
use crate::proxy_primary_test::{ProxyPrimaryHappyPathTest, ProxyPrimaryLoadTest};
use vstd::prelude::*;
use vstd::string::StringSliceAdditionalSpecFns;

verus! {

/// The network test that a suite runs.
#[derive(Clone, Copy, Debug, PartialEq, Eq, Structural)]
pub enum ProxyNetworkTest {
    HappyPath(ProxyPrimaryHappyPathTest),
    Load(ProxyPrimaryLoadTest),
}

/// A forge suite: the swarm, the node configuration override and the success criteria.
#[derive(Clone, Copy, Debug, PartialEq, Eq, Structural)]
pub struct ProxyForgeSuite {
    /// The number of validators the swarm starts with.
    pub initial_validator_count: usize,
    /// The network test to run.
    pub network_test: ProxyNetworkTest,
    /// Whether the validators run proxy consensus.
    pub enable_proxy_consensus: bool,
    /// The initial round timeout of proxy consensus, in milliseconds.
    pub proxy_round_initial_timeout_ms: u64,
    /// The initial round timeout of primary consensus, in milliseconds.
    pub primary_round_initial_timeout_ms: u64,
    /// The minimum average throughput, in transactions per second.
    pub min_avg_tps: usize,
    /// Whether the success criteria forbid node restarts.
    pub no_restarts: bool,
    /// How long the success criteria wait for the nodes to catch up, in seconds.
    pub wait_for_catchup_s: u64,
}

/// The happy path suite: seven validators, proxy rounds of one second and
/// primary rounds of ten, so that proxies produce several blocks per primary round.
pub open spec fn happy_path_suite() -> ProxyForgeSuite {
    ProxyForgeSuite {
        initial_validator_count: 7,
        network_test: ProxyNetworkTest::HappyPath(
            ProxyPrimaryHappyPathTest { min_tps: 1000, min_proxy_blocks_per_round: 3 },
        ),
        enable_proxy_consensus: true,
        proxy_round_initial_timeout_ms: 1000,
        primary_round_initial_timeout_ms: 10000,
        min_avg_tps: 10,
        no_restarts: true,
        wait_for_catchup_s: 30,
    }
}

/// The load suite: four validators, proxy rounds of a tenth of a second and
/// primary rounds of ten seconds.
pub open spec fn load_suite() -> ProxyForgeSuite {
    ProxyForgeSuite {
        initial_validator_count: 4,
        network_test: ProxyNetworkTest::Load(
            ProxyPrimaryLoadTest { target_tps: 5000, max_latency_ms: 3000 },
        ),
        enable_proxy_consensus: true,
        proxy_round_initial_timeout_ms: 100,
        primary_round_initial_timeout_ms: 10000,
        min_avg_tps: 10,
        no_restarts: true,
        wait_for_catchup_s: 30,
    }
}

/// The basic happy path suite for proxy primary consensus.
pub fn proxy_primary_happy_path_test() -> (s: ProxyForgeSuite)
    ensures
        s == happy_path_suite(),
{
    ProxyForgeSuite {
        initial_validator_count: 7,
        network_test: ProxyNetworkTest::HappyPath(ProxyPrimaryHappyPathTest::default()),
        enable_proxy_consensus: true,
        proxy_round_initial_timeout_ms: 1000,
        primary_round_initial_timeout_ms: 10000,
        min_avg_tps: 10,
        no_restarts: true,
        wait_for_catchup_s: 30,
    }
}

/// The load suite for proxy primary consensus.
fn proxy_primary_load_test() -> (s: ProxyForgeSuite)
    ensures
        s == load_suite(),
{
    ProxyForgeSuite {
        initial_validator_count: 4,
        network_test: ProxyNetworkTest::Load(ProxyPrimaryLoadTest::default()),
        enable_proxy_consensus: true,
        proxy_round_initial_timeout_ms: 100,
        primary_round_initial_timeout_ms: 10000,
        min_avg_tps: 10,
        no_restarts: true,
        wait_for_catchup_s: 30,
    }
}

/// Whether two byte strings are equal.
fn bytes_equal(a: &[u8], b: &[u8]) -> (eq: bool)
    ensures
        eq == (a@ == b@),
{
    if a.len() != b.len() {
        return false;
    }
    let mut i: usize = 0;
    while i < a.len()
        invariant
            i <= a@.len(),
            a@.len() == b@.len(),
            forall|k: int| 0 <= k < i ==> a@[k] == b@[k],
        decreases a@.len() - i,
    {
        if a[i] != b[i] {
            return false;
        }
        i = i + 1;
    }
    assert(a@ =~= b@);
    true
}

/// The suite named `test_name`: `proxy_primary_happy_path` or
/// `proxy_primary_load`; any other name has none. The duration is not used
/// by either suite.
pub fn get_proxy_test(test_name: &str, duration_ms: u64) -> (r: Option<ProxyForgeSuite>)
    ensures
        r == if test_name.spec_bytes() == "proxy_primary_happy_path".spec_bytes() {
            Some(happy_path_suite())
        } else if test_name.spec_bytes() == "proxy_primary_load".spec_bytes() {
            Some(load_suite())
        } else {
            None
        },
{
    let name = test_name.as_bytes();
    if bytes_equal(name, "proxy_primary_happy_path".as_bytes()) {
        Some(proxy_primary_happy_path_test())
    } else if bytes_equal(name, "proxy_primary_load".as_bytes()) {
        Some(proxy_primary_load_test())
    } else {
        None
    }
}

} // verus!
