use quorum_list_server::config::{Config, Network};
use quorum_list_server::grpc_client::SoftwareVersions;
use quorum_list_server::masternode::{
    load_masternode_list, nodes_settled, EvoMasternodeInfo, MasternodeInfo, ProbeOutcome,
};
use quorum_list_server::masternode_cache::{
    CacheError, MasternodeCache, ReadStep, RefreshTiming, BATCH_TIMEOUT_MS, PER_PEER_TIMEOUT_MS,
    UPDATE_INTERVAL_MS,
};
use quorum_list_server::probe::{plan_probe, ProbePlan, ProbeReply, ProbeReport};
use quorum_list_server::snapshot::{Snapshot, SnapshotStore};

fn node(id: &str, address: &str, status: &str) -> EvoMasternodeInfo {
    EvoMasternodeInfo {
        pro_tx_hash: id.to_string(),
        address: address.to_string(),
        status: status.to_string(),
        platform_http_port: None,
        outcome: ProbeOutcome::Pending,
    }
}

fn listed(id: &str, address: &str, status: &str) -> MasternodeInfo {
    MasternodeInfo {
        pro_tx_hash: id.to_string(),
        address: address.to_string(),
        payee: String::new(),
        status: status.to_string(),
        node_type: "Evo".to_string(),
        platform_node_id: None,
        platform_p2p_port: None,
        platform_http_port: None,
        pos_penalty_score: 0,
        consecutive_payments: 0,
        last_paid_time: 0,
        last_paid_block: 0,
        owner_address: String::new(),
        voting_address: String::new(),
        collateral_address: String::new(),
        pubkey_operator: String::new(),
    }
}

fn dapi(version: &str) -> SoftwareVersions {
    SoftwareVersions { dapi: Some(version.to_string()), drive: None, tenderdash: None }
}

fn data(version: &str) -> Option<ProbeReport> {
    Some(ProbeReport { reply: ProbeReply::Data { versions: dapi(version) }, elapsed_ms: 50 })
}

fn failed(reason: &str) -> ProbeOutcome {
    ProbeOutcome::Failed { reason: reason.to_string() }
}

fn settled(id: &str, outcome: ProbeOutcome) -> EvoMasternodeInfo {
    let mut n = node(id, "10.0.0.1:1", "ENABLED");
    n.outcome = outcome;
    n
}

fn timing(staleness: u64) -> RefreshTiming {
    RefreshTiming {
        staleness_interval_ms: staleness,
        background_period_ms: staleness,
        per_peer_timeout_ms: 2000,
        batch_timeout_ms: 30000,
    }
}

#[test]
fn timing_defaults() {
    assert_eq!(UPDATE_INTERVAL_MS, 600_000);
    assert_eq!(PER_PEER_TIMEOUT_MS, 2_000);
    assert_eq!(BATCH_TIMEOUT_MS, 30_000);
    let timing = RefreshTiming::default();
    assert_eq!(timing.staleness_interval_ms, 600_000);
    assert_eq!(timing.background_period_ms, 600_000);
    assert_eq!(timing.per_peer_timeout_ms, 2_000);
    assert_eq!(timing.batch_timeout_ms, 30_000);
    let cache = MasternodeCache::new(Config::default());
    assert_eq!(cache.timing(), timing);
    assert!(!cache.is_refreshing());
    assert_eq!(cache.last_update(), None);
    assert!(cache.snapshot().is_none());
    assert_eq!(cache.config().get_dapi_port(), 1443);
}

#[test]
fn snapshot_holds_no_pending_node() {
    assert!(Snapshot::new(vec![node("a", "1.1.1.1:1", "ENABLED")], 5).is_none());
    let made = Snapshot::new(vec![settled("a", failed("timeout"))], 5).expect("all nodes settled");
    assert_eq!(made.timestamp(), 5);
    assert_eq!(made.peers().len(), 1);
    assert_eq!(made.peers()[0].outcome, failed("timeout"));
    let empty = Snapshot::new(Vec::new(), 9).expect("no node is pending");
    assert!(empty.peers().is_empty());
    assert_eq!(made.clone(), made);
}

#[test]
fn store_hands_out_what_was_published() {
    let mut store = SnapshotStore::new();
    assert!(store.is_empty());
    assert!(store.read().is_none());
    assert_eq!(store.timestamp(), None);
    assert_eq!(store.masternodes(), None);
    let first = Snapshot::new(vec![settled("a", failed("timeout"))], 10).unwrap();
    store.publish(first.clone());
    assert!(!store.is_empty());
    assert_eq!(store.read(), Some(first.clone()));
    assert_eq!(store.read(), Some(first));
    assert_eq!(store.timestamp(), Some(10));
    let second = Snapshot::new(vec![settled("b", failed("banned")), settled("c", failed("x"))], 20).unwrap();
    store.publish(second.clone());
    assert_eq!(store.read(), Some(second));
    assert_eq!(store.timestamp(), Some(20));
    assert_eq!(store.masternodes().unwrap().len(), 2);
}

#[test]
fn reads_never_go_back_in_time() {
    let mut cache = MasternodeCache::with_timing(Config::default(), timing(100));
    let mut seen: Vec<Option<u64>> = Vec::new();
    let mut clock = 0;
    for round in 0..6u64 {
        clock += 150;
        assert_eq!(cache.get_masternodes(clock), ReadStep::Refresh);
        seen.push(cache.snapshot().map(|s| s.timestamp()));
        clock += 10;
        let outcome = if round % 2 == 1 {
            cache.update_cache(Err("down".to_string()), &Vec::new(), 0, clock)
        } else {
            cache.update_cache(Ok(vec![node("a", "1.1.1.1:1", "ENABLED")]), &vec![data("2.0.0")], 10, clock)
        };
        assert_eq!(outcome.is_ok(), round % 2 == 0);
        seen.push(cache.snapshot().map(|s| s.timestamp()));
    }
    for pair in seen.windows(2) {
        assert!(pair[0] <= pair[1]);
    }
    assert_eq!(seen.last().unwrap(), &Some(160 * 5));
}

#[test]
fn first_read_asks_for_a_refresh() {
    let mut cache = MasternodeCache::new(Config::default());
    assert_eq!(cache.get_masternodes(0), ReadStep::Refresh);
    assert!(cache.is_refreshing());
}

#[test]
fn concurrent_stale_reads_start_one_refresh() {
    let mut cache = MasternodeCache::new(Config::default());
    let mut refreshes = 0;
    let mut waits = 0;
    for reader in 0..25u64 {
        match cache.get_masternodes(reader) {
            ReadStep::Refresh => refreshes += 1,
            ReadStep::Wait => waits += 1,
            ReadStep::Serve { .. } => panic!("nothing to serve yet"),
        }
    }
    assert!(!cache.start_background_refresh());
    assert_eq!(refreshes, 1);
    assert_eq!(waits, 24);
    assert!(cache.is_refreshing());
    let done = cache.update_cache(Ok(vec![node("a", "1.1.1.1:1", "ENABLED")]), &vec![data("2.0.0")], 20, 30);
    assert_eq!(done, Ok(()));
    assert!(!cache.is_refreshing());
    for reader in 0..25u64 {
        match cache.get_masternodes(31 + reader) {
            ReadStep::Serve { masternodes } => assert_eq!(masternodes.len(), 1),
            other => panic!("fresh snapshot must be served, got {:?}", other),
        }
    }
    assert!(!cache.is_refreshing());
}

#[test]
fn snapshot_goes_stale_at_the_interval() {
    let mut cache = MasternodeCache::with_timing(Config::default(), timing(1000));
    assert_eq!(cache.get_masternodes(5), ReadStep::Refresh);
    cache.update_cache(Ok(vec![node("a", "1.1.1.1:1", "ENABLED")]), &vec![data("2.0.0")], 1, 500).unwrap();
    assert!(matches!(cache.get_masternodes(500), ReadStep::Serve { .. }));
    assert!(matches!(cache.get_masternodes(1499), ReadStep::Serve { .. }));
    assert!(matches!(cache.get_masternodes(100), ReadStep::Serve { .. }));
    assert!(!cache.is_refreshing());
    assert_eq!(cache.get_masternodes(1500), ReadStep::Refresh);
    assert_eq!(cache.get_masternodes(1500), ReadStep::Wait);
    assert_eq!(cache.get_masternodes(u64::MAX), ReadStep::Wait);
}

#[test]
fn timer_starts_a_refresh_however_fresh_the_snapshot() {
    let mut cache = MasternodeCache::new(Config::default());
    assert!(cache.start_background_refresh());
    assert!(cache.is_refreshing());
    assert!(!cache.start_background_refresh());
    cache.update_cache(Ok(Vec::new()), &Vec::new(), 0, 100).unwrap();
    assert!(matches!(cache.get_masternodes(101), ReadStep::Serve { .. }));
    assert!(cache.start_background_refresh());
    assert!(matches!(cache.get_masternodes(102), ReadStep::Serve { .. }));
    assert!(!cache.start_background_refresh());
    assert!(cache.is_refreshing());
}

#[test]
fn batch_timeout_keeps_the_published_snapshot() {
    let mut cache = MasternodeCache::with_timing(Config::default(), timing(100));
    cache.get_masternodes(0);
    cache.update_cache(Ok(vec![node("a", "1.1.1.1:1", "ENABLED")]), &vec![data("2.0.0")], 10, 10).unwrap();
    let before = cache.snapshot();
    assert!(before.is_some());
    assert_eq!(cache.get_masternodes(500), ReadStep::Refresh);
    let outcome = cache.update_cache(
        Ok(vec![node("b", "2.2.2.2:1", "ENABLED")]),
        &vec![data("3.0.0")],
        30_001,
        31_000,
    );
    assert_eq!(outcome, Err(CacheError::BatchTimeout));
    assert_eq!(cache.snapshot(), before);
    assert_eq!(cache.cached_masternodes().unwrap(), before.unwrap().peers().clone());
    assert!(!cache.is_refreshing());
    assert_eq!(cache.last_update(), Some(31_000));
    assert_eq!(cache.get_masternodes(31_001), ReadStep::Refresh);
}

#[test]
fn batch_exactly_at_the_timeout_is_published() {
    let mut cache = MasternodeCache::new(Config::default());
    cache.get_masternodes(0);
    let outcome = cache.update_cache(Ok(vec![node("a", "1.1.1.1:1", "ENABLED")]), &vec![data("2.0.0")], 30_000, 30_010);
    assert_eq!(outcome, Ok(()));
    assert_eq!(cache.snapshot().unwrap().timestamp(), 30_010);
}

#[test]
fn directory_failure_is_reported_and_keeps_the_snapshot() {
    let mut cache = MasternodeCache::with_timing(Config::default(), timing(100));
    assert_eq!(cache.get_masternodes(0), ReadStep::Refresh);
    let outcome = cache.update_cache(Err("connection refused".to_string()), &Vec::new(), 0, 3);
    assert_eq!(outcome, Err(CacheError::DirectoryUnavailable { message: "connection refused".to_string() }));
    assert!(!cache.is_refreshing());
    assert_eq!(cache.cached_masternodes(), Err(CacheError::NoSnapshotYet));
    assert_eq!(cache.get_masternodes(4), ReadStep::Refresh);
    cache.update_cache(Ok(vec![node("a", "1.1.1.1:1", "ENABLED")]), &vec![data("2.0.0")], 1, 5).unwrap();
    let published = cache.cached_masternodes().unwrap();
    assert_eq!(cache.get_masternodes(500), ReadStep::Refresh);
    let outcome = cache.update_cache(Err("down again".to_string()), &vec![data("9.9.9")], 0, 501);
    assert_eq!(outcome, Err(CacheError::DirectoryUnavailable { message: "down again".to_string() }));
    assert_eq!(cache.cached_masternodes().unwrap(), published);
    assert_eq!(cache.snapshot().unwrap().timestamp(), 5);
}

#[test]
fn directory_failure_comes_before_batch_timeout() {
    let mut cache = MasternodeCache::new(Config::default());
    let outcome = cache.update_cache(Err("down".to_string()), &Vec::new(), 99_999, 3);
    assert_eq!(outcome, Err(CacheError::DirectoryUnavailable { message: "down".to_string() }));
}

#[test]
fn end_to_end_refresh_and_second_read() {
    let config = Config { network: Network::Testnet, ..Config::default() };
    let mut cache = MasternodeCache::new(config);
    let mut directory_calls = 0;
    let mut probe_calls = 0;

    assert_eq!(cache.get_masternodes(1_000), ReadStep::Refresh);
    directory_calls += 1;
    let peers = load_masternode_list(vec![
        listed("banned", "10.0.0.9:19999", "POSE_BANNED"),
        listed("A", "10.0.0.1:19999", "ENABLED"),
        listed("B", "10.0.0.2:19999", "ENABLED"),
    ]);
    let mut reports = Vec::new();
    for peer in peers.iter() {
        match plan_probe(peer, cache.config().get_dapi_port()) {
            ProbePlan::Skip { .. } => reports.push(None),
            ProbePlan::Call { host, port } => {
                probe_calls += 1;
                assert_eq!(port, 1443);
                if host == "10.0.0.1" {
                    reports.push(Some(ProbeReport {
                        reply: ProbeReply::Data { versions: dapi("2.1.0") },
                        elapsed_ms: 80,
                    }));
                } else {
                    reports.push(Some(ProbeReport { reply: ProbeReply::TimedOut, elapsed_ms: 2_000 }));
                }
            }
        }
    }
    assert_eq!(cache.update_cache(Ok(peers), &reports, 2_010, 3_500), Ok(()));
    assert_eq!(directory_calls, 1);
    assert_eq!(probe_calls, 2);

    let view = cache.cached_masternodes().unwrap();
    assert_eq!(view.len(), 3);
    assert!(nodes_settled(&view));
    assert_eq!(view[0].pro_tx_hash, "banned");
    assert_eq!(view[0].outcome, failed("banned"));
    assert_eq!(view[1].pro_tx_hash, "A");
    assert_eq!(view[1].outcome, ProbeOutcome::Success { versions: dapi("2.1.0") });
    assert!(view[1].outcome.is_modern());
    assert_eq!(view[1].version_check(), "success");
    assert_eq!(view[2].pro_tx_hash, "B");
    assert_eq!(view[2].outcome, failed("timeout"));

    let first = cache.snapshot();
    match cache.get_masternodes(3_500 + UPDATE_INTERVAL_MS - 1) {
        ReadStep::Serve { masternodes } => assert_eq!(masternodes, view),
        other => panic!("second read must be served from the snapshot, got {:?}", other),
    }
    assert!(!cache.is_refreshing());
    assert_eq!(cache.snapshot(), first);
    assert_eq!(cache.snapshot().unwrap().timestamp(), 3_500);
    assert_eq!(directory_calls, 1);
    assert_eq!(probe_calls, 2);
}
