use proxy_primary::proxy_primary_test::{
    aggregate_primary_metrics, aggregate_proxy_metrics, check_happy_path, check_load_test,
    load_test_deltas, PrimaryConsensusMetrics, ProxyConsensusMetrics, ProxyPrimaryHappyPathTest,
    ProxyPrimaryLoadTest,
};

#[test]
fn test_proxy_primary_test_defaults() {
    let test = ProxyPrimaryHappyPathTest::default();
    assert_eq!(test.min_tps, 1000);
    assert_eq!(test.min_proxy_blocks_per_round, 3);
}

#[test]
fn test_proxy_primary_load_test_defaults() {
    let test = ProxyPrimaryLoadTest::default();
    assert_eq!(test.target_tps, 5000);
    assert_eq!(test.max_latency_ms, 3000);
}

fn proxy(v: [i64; 8]) -> ProxyConsensusMetrics {
    ProxyConsensusMetrics {
        proposals_sent: v[0],
        votes_sent: v[1],
        qcs_formed: v[2],
        blocks_ordered: v[3],
        blocks_forwarded: v[4],
        backpressure_events: v[5],
        timeout_all: v[6],
        timeout_leader: v[7],
    }
}

fn primary(a: i64, b: i64, c: i64) -> PrimaryConsensusMetrics {
    PrimaryConsensusMetrics { last_committed_round: a, current_round: b, committed_blocks: c }
}

#[test]
fn test_names() {
    assert_eq!(ProxyPrimaryHappyPathTest::default().name(), "proxy primary happy path test");
    assert_eq!(ProxyPrimaryLoadTest::default().name(), "proxy primary load test");
}

#[test]
fn proxy_metrics_are_summed_over_validators() {
    let readings = vec![proxy([1, 2, 3, 4, 5, 6, 7, 8]), proxy([10, 20, 30, 40, 50, 60, 70, 80]), proxy([0; 8])];
    assert_eq!(aggregate_proxy_metrics(&readings), proxy([11, 22, 33, 44, 55, 66, 77, 88]));
    assert_eq!(aggregate_proxy_metrics(&vec![]), ProxyConsensusMetrics::default());
}

#[test]
fn primary_metrics_take_the_maximum_and_start_at_zero() {
    let readings = vec![primary(5, 9, 2), primary(7, 3, 1), primary(-4, -4, -4)];
    assert_eq!(aggregate_primary_metrics(&readings), primary(7, 9, 2));
    assert_eq!(aggregate_primary_metrics(&vec![primary(-1, -2, -3)]), primary(0, 0, 0));
}

#[test]
fn happy_path_requires_progress_in_both_layers() {
    let good = proxy([1, 1, 1, 1, 1, 0, 0, 0]);
    assert!(check_happy_path(&good, &primary(3, 4, 2)).is_ok());
    assert_eq!(check_happy_path(&proxy([0, 1, 1, 1, 1, 0, 0, 0]), &primary(3, 4, 2)), Err("Proxy consensus: no proposals sent".to_string()));
    assert_eq!(check_happy_path(&proxy([1, 0, 1, 1, 1, 0, 0, 0]), &primary(3, 4, 2)), Err("Proxy consensus: no votes sent".to_string()));
    assert_eq!(check_happy_path(&proxy([1, 1, 0, 1, 1, 0, 0, 0]), &primary(3, 4, 2)), Err("Proxy consensus: no QCs formed".to_string()));
    assert_eq!(check_happy_path(&proxy([1, 1, 1, 0, 1, 0, 0, 0]), &primary(3, 4, 2)), Err("Proxy consensus: no blocks ordered".to_string()));
    assert_eq!(check_happy_path(&proxy([1, 1, 1, 1, 0, 0, 0, 0]), &primary(3, 4, 2)), Err("Proxy consensus: no blocks forwarded to primaries".to_string()));
    assert_eq!(check_happy_path(&good, &primary(0, 4, 2)), Err("Primary consensus: no blocks committed (last_committed_round=0)".to_string()));
    assert_eq!(check_happy_path(&good, &primary(3, 4, 0)), Err("Primary consensus: committed_blocks=0".to_string()));
}

#[test]
fn load_test_checks_the_window_deltas() {
    let start = proxy([10, 0, 0, 5, 5, 1, 0, 0]);
    let end = proxy([15, 0, 0, 9, 8, 4, 0, 0]);
    let d = load_test_deltas(&start, &primary(0, 0, 3), &end, &primary(0, 0, 7));
    assert_eq!((d.proposals, d.ordered, d.forwarded, d.backpressure, d.primary_committed), (5, 4, 3, 3, 4));
    assert!(check_load_test(&d).is_ok());
    let stalled = load_test_deltas(&end, &primary(0, 0, 7), &end, &primary(0, 0, 7));
    assert_eq!(check_load_test(&stalled), Err("Proxy consensus: no proposals sent during test window".to_string()));
    let d2 = load_test_deltas(&start, &primary(0, 0, 3), &proxy([15, 0, 0, 9, 8, 4, 0, 0]), &primary(0, 0, 3));
    assert_eq!(check_load_test(&d2), Err("Primary consensus: no blocks committed during test window".to_string()));
}
