use quorum_list_server::grpc_client::SoftwareVersions;
use quorum_list_server::masternode::{nodes_settled, EvoMasternodeInfo, ProbeOutcome};
use quorum_list_server::probe::{
    classify_report, plan_probe, probe_all, settle_peer, slow_nodes, split_address, tally,
    ProbePlan, ProbeReply, ProbeReport, SlowNode, Tally,
};

fn node(id: &str, address: &str, status: &str) -> EvoMasternodeInfo {
    EvoMasternodeInfo {
        pro_tx_hash: id.to_string(),
        address: address.to_string(),
        status: status.to_string(),
        platform_http_port: Some(1443),
        outcome: ProbeOutcome::Pending,
    }
}

fn dapi(version: &str) -> SoftwareVersions {
    SoftwareVersions { dapi: Some(version.to_string()), drive: None, tenderdash: None }
}

fn data(version: &str, elapsed_ms: u64) -> Option<ProbeReport> {
    Some(ProbeReport { reply: ProbeReply::Data { versions: dapi(version) }, elapsed_ms })
}

fn error(message: &str, elapsed_ms: u64) -> Option<ProbeReport> {
    Some(ProbeReport { reply: ProbeReply::Error { message: message.to_string() }, elapsed_ms })
}

fn timed_out(elapsed_ms: u64) -> Option<ProbeReport> {
    Some(ProbeReport { reply: ProbeReply::TimedOut, elapsed_ms })
}

fn failed(reason: &str) -> ProbeOutcome {
    ProbeOutcome::Failed { reason: reason.to_string() }
}

#[test]
fn address_needs_exactly_one_colon() {
    assert_eq!(split_address("1.2.3.4:19999"), Some("1.2.3.4".to_string()));
    assert_eq!(split_address("host:"), Some("host".to_string()));
    assert_eq!(split_address(":19999"), Some("".to_string()));
    assert_eq!(split_address(":"), Some("".to_string()));
    assert_eq!(split_address("1.2.3.4"), None);
    assert_eq!(split_address(""), None);
    assert_eq!(split_address("[::1]:19999"), None);
    assert_eq!(split_address("a:b:c"), None);
    assert_eq!(split_address("münchen:1"), Some("münchen".to_string()));
}

#[test]
fn banned_node_is_skipped() {
    let plan = plan_probe(&node("a", "1.2.3.4:19999", "POSE_BANNED"), 1443);
    assert_eq!(plan, ProbePlan::Skip { reason: "banned".to_string() });
    let plan = plan_probe(&node("a", "no address", "POSE_BANNED"), 1443);
    assert_eq!(plan, ProbePlan::Skip { reason: "banned".to_string() });
}

#[test]
fn malformed_address_is_skipped() {
    let plan = plan_probe(&node("a", "1.2.3.4", "ENABLED"), 1443);
    assert_eq!(plan, ProbePlan::Skip { reason: "bad address".to_string() });
    let plan = plan_probe(&node("a", "1:2:3", "ENABLED"), 1443);
    assert_eq!(plan, ProbePlan::Skip { reason: "bad address".to_string() });
}

#[test]
fn well_formed_node_is_asked_on_the_dapi_port() {
    let plan = plan_probe(&node("a", "1.2.3.4:19999", "ENABLED"), 1443);
    assert_eq!(plan, ProbePlan::Call { host: "1.2.3.4".to_string(), port: 1443 });
    let plan = plan_probe(&node("a", "5.6.7.8:1", "SOMETHING_ELSE"), 443);
    assert_eq!(plan, ProbePlan::Call { host: "5.6.7.8".to_string(), port: 443 });
}

#[test]
fn report_is_classified() {
    let answered = ProbeReport { reply: ProbeReply::Data { versions: dapi("2.1.0") }, elapsed_ms: 120 };
    assert_eq!(classify_report(&answered, 2000), ProbeOutcome::Success { versions: dapi("2.1.0") });
    let refused = ProbeReport { reply: ProbeReply::Error { message: "connection refused".to_string() }, elapsed_ms: 5 };
    assert_eq!(classify_report(&refused, 2000), failed("connection refused"));
    let silent = ProbeReport { reply: ProbeReply::TimedOut, elapsed_ms: 0 };
    assert_eq!(classify_report(&silent, 2000), failed("timeout"));
}

#[test]
fn late_answer_counts_as_timeout() {
    let late = ProbeReport { reply: ProbeReply::Data { versions: dapi("2.1.0") }, elapsed_ms: 2001 };
    assert_eq!(classify_report(&late, 2000), failed("timeout"));
    let late_error = ProbeReport { reply: ProbeReply::Error { message: "reset".to_string() }, elapsed_ms: 9000 };
    assert_eq!(classify_report(&late_error, 2000), failed("timeout"));
    let just_in_time = ProbeReport { reply: ProbeReply::Data { versions: dapi("2.1.0") }, elapsed_ms: 2000 };
    assert_eq!(classify_report(&just_in_time, 2000), ProbeOutcome::Success { versions: dapi("2.1.0") });
    let zero = ProbeReport { reply: ProbeReply::Data { versions: dapi("2.1.0") }, elapsed_ms: 0 };
    assert_eq!(classify_report(&zero, 0), ProbeOutcome::Success { versions: dapi("2.1.0") });
}

#[test]
fn peer_is_settled_on_its_report() {
    let settled = settle_peer(node("a", "1.2.3.4:1", "ENABLED"), data("2.0.0", 10).as_ref(), 2000);
    assert_eq!(settled.pro_tx_hash, "a");
    assert_eq!(settled.address, "1.2.3.4:1");
    assert_eq!(settled.status, "ENABLED");
    assert_eq!(settled.platform_http_port, Some(1443));
    assert_eq!(settled.outcome, ProbeOutcome::Success { versions: dapi("2.0.0") });
    let unanswered = settle_peer(node("a", "1.2.3.4:1", "ENABLED"), None, 2000);
    assert_eq!(unanswered.outcome, failed("timeout"));
    let banned = settle_peer(node("b", "1.2.3.4:1", "POSE_BANNED"), data("2.0.0", 10).as_ref(), 2000);
    assert_eq!(banned.outcome, failed("banned"));
    let malformed = settle_peer(node("c", "nowhere", "ENABLED"), data("2.0.0", 10).as_ref(), 2000);
    assert_eq!(malformed.outcome, failed("bad address"));
}

#[test]
fn fan_out_keeps_length_and_order_and_settles_every_node() {
    let peers = vec![
        node("a", "10.0.0.1:1", "ENABLED"),
        node("b", "10.0.0.2:1", "POSE_BANNED"),
        node("c", "bad", "ENABLED"),
        node("d", "10.0.0.4:1", "ENABLED"),
        node("e", "10.0.0.5:1", "ENABLED"),
        node("f", "10.0.0.6:1", "ENABLED"),
    ];
    let reports = vec![
        data("2.1.0", 100),
        None,
        None,
        error("unavailable", 40),
        timed_out(2000),
        data("1.0.0", 300),
    ];
    let settled = probe_all(peers, &reports, 2000);
    assert_eq!(settled.len(), 6);
    let ids: Vec<&str> = settled.iter().map(|n| n.pro_tx_hash.as_str()).collect();
    assert_eq!(ids, vec!["a", "b", "c", "d", "e", "f"]);
    assert!(nodes_settled(&settled));
    assert_eq!(settled[0].outcome, ProbeOutcome::Success { versions: dapi("2.1.0") });
    assert_eq!(settled[1].outcome, failed("banned"));
    assert_eq!(settled[2].outcome, failed("bad address"));
    assert_eq!(settled[3].outcome, failed("unavailable"));
    assert_eq!(settled[4].outcome, failed("timeout"));
    assert_eq!(settled[5].outcome, ProbeOutcome::Success { versions: dapi("1.0.0") });
    assert_eq!(settled[0].address, "10.0.0.1:1");
    assert_eq!(settled[5].status, "ENABLED");
}

#[test]
fn fan_out_of_no_nodes_is_empty() {
    assert!(probe_all(Vec::new(), &Vec::new(), 2000).is_empty());
    assert!(probe_all(Vec::new(), &vec![data("2.0.0", 1)], 2000).is_empty());
}

#[test]
fn banned_nodes_are_never_asked() {
    let peers = vec![
        node("a", "10.0.0.1:1", "POSE_BANNED"),
        node("b", "10.0.0.2:1", "ENABLED"),
        node("c", "10.0.0.3:1", "POSE_BANNED"),
    ];
    let mut calls = 0;
    let mut reports = Vec::new();
    for peer in peers.iter() {
        match plan_probe(peer, 1443) {
            ProbePlan::Call { .. } => {
                calls += 1;
                reports.push(data("2.0.0", 10));
            }
            ProbePlan::Skip { .. } => reports.push(None),
        }
    }
    assert_eq!(calls, 1);
    let settled = probe_all(peers, &reports, 2000);
    assert_eq!(settled[0].outcome, failed("banned"));
    assert_eq!(settled[1].outcome, ProbeOutcome::Success { versions: dapi("2.0.0") });
    assert_eq!(settled[2].outcome, failed("banned"));
}

#[test]
fn report_for_a_banned_node_is_ignored() {
    let peers = vec![node("a", "10.0.0.1:1", "POSE_BANNED")];
    let settled = probe_all(peers, &vec![data("2.0.0", 10)], 2000);
    assert_eq!(settled[0].outcome, failed("banned"));
}

#[test]
fn node_without_report_did_not_answer_in_time() {
    let peers = vec![node("a", "10.0.0.1:1", "ENABLED"), node("b", "10.0.0.2:1", "ENABLED")];
    let settled = probe_all(peers, &vec![data("2.0.0", 10)], 2000);
    assert_eq!(settled[0].outcome, ProbeOutcome::Success { versions: dapi("2.0.0") });
    assert_eq!(settled[1].outcome, failed("timeout"));
}

#[test]
fn earlier_outcome_is_replaced() {
    let mut peer = node("a", "10.0.0.1:1", "ENABLED");
    peer.outcome = failed("stale");
    let settled = probe_all(vec![peer], &vec![data("2.0.0", 10)], 2000);
    assert_eq!(settled[0].outcome, ProbeOutcome::Success { versions: dapi("2.0.0") });
}

#[test]
fn tally_counts_success_and_fail() {
    let peers = vec![
        node("a", "10.0.0.1:1", "ENABLED"),
        node("b", "10.0.0.2:1", "POSE_BANNED"),
        node("c", "10.0.0.3:1", "ENABLED"),
        node("d", "10.0.0.4:1", "ENABLED"),
    ];
    let pending = tally(&peers);
    assert_eq!(pending, Tally { success: 0, fail: 0 });
    let reports = vec![data("2.1.0", 1), None, data("1.0.0", 1), data("v3.0.0", 1)];
    let settled = probe_all(peers, &reports, 2000);
    assert_eq!(tally(&settled), Tally { success: 2, fail: 2 });
    assert_eq!(tally(&Vec::new()), Tally { success: 0, fail: 0 });
}

#[test]
fn slow_nodes_are_listed_slowest_first() {
    let peers = vec![
        node("a", "10.0.0.1:1", "ENABLED"),
        node("b", "10.0.0.2:1", "ENABLED"),
        node("c", "10.0.0.3:1", "ENABLED"),
        node("d", "10.0.0.4:1", "POSE_BANNED"),
        node("e", "10.0.0.5:1", "ENABLED"),
        node("f", "10.0.0.6:1", "ENABLED"),
        node("g", "bad", "ENABLED"),
        node("h", "10.0.0.8:1", "ENABLED"),
    ];
    let reports = vec![
        timed_out(2000),
        data("2.0.0", 150),
        data("2.0.0", 2500),
        timed_out(2000),
        timed_out(2000),
        error("reset", 3000),
        timed_out(5000),
        None,
    ];
    let slow = slow_nodes(&peers, &reports, 2000);
    assert_eq!(
        slow,
        vec![
            SlowNode { index: 5, address: "10.0.0.6:1".to_string(), elapsed_ms: 3000 },
            SlowNode { index: 2, address: "10.0.0.3:1".to_string(), elapsed_ms: 2500 },
            SlowNode { index: 0, address: "10.0.0.1:1".to_string(), elapsed_ms: 2000 },
            SlowNode { index: 4, address: "10.0.0.5:1".to_string(), elapsed_ms: 2000 },
        ]
    );
    assert!(slow_nodes(&peers, &Vec::new(), 2000).is_empty());
    assert!(slow_nodes(&Vec::new(), &reports, 2000).is_empty());
}
