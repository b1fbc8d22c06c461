use quorum_list_server::grpc_client::{check_node_version, endpoint, SoftwareVersions};
use quorum_list_server::masternode::{
    load_masternode_list, nodes_settled, peer_status, EvoMasternodeInfo, MasternodeInfo,
    PeerStatus, ProbeOutcome,
};

fn listed(pro_tx_hash: &str, address: &str, status: &str, node_type: &str) -> MasternodeInfo {
    MasternodeInfo {
        pro_tx_hash: pro_tx_hash.to_string(),
        address: address.to_string(),
        payee: "yPayee".to_string(),
        status: status.to_string(),
        node_type: node_type.to_string(),
        platform_node_id: Some("node-id".to_string()),
        platform_p2p_port: Some(36656),
        platform_http_port: Some(1443),
        pos_penalty_score: 0,
        consecutive_payments: 1,
        last_paid_time: 1_700_000_000,
        last_paid_block: 900_000,
        owner_address: "yOwner".to_string(),
        voting_address: "yVoting".to_string(),
        collateral_address: "yCollateral".to_string(),
        pubkey_operator: "8a0f".to_string(),
    }
}

fn versions(dapi: Option<&str>, drive: Option<&str>, tenderdash: Option<&str>) -> SoftwareVersions {
    SoftwareVersions {
        dapi: dapi.map(|v| v.to_string()),
        drive: drive.map(|v| v.to_string()),
        tenderdash: tenderdash.map(|v| v.to_string()),
    }
}

#[test]
fn evo_node_starts_pending() {
    let evo: Option<EvoMasternodeInfo> = listed("aa", "1.2.3.4:19999", "ENABLED", "Evo").into();
    let evo = evo.expect("an Evo node is kept");
    assert_eq!(evo.pro_tx_hash, "aa");
    assert_eq!(evo.address, "1.2.3.4:19999");
    assert_eq!(evo.status, "ENABLED");
    assert_eq!(evo.platform_http_port, Some(1443));
    assert_eq!(evo.outcome, ProbeOutcome::Pending);
    assert_eq!(evo.version_check(), "pending");
    assert_eq!(evo.dapi_version(), None);
    assert_eq!(evo.drive_version(), None);
}

#[test]
fn banned_evo_node_starts_failed() {
    let evo: Option<EvoMasternodeInfo> = listed("bb", "1.2.3.5:19999", "POSE_BANNED", "Evo").into();
    let evo = evo.expect("an Evo node is kept");
    assert_eq!(evo.outcome, ProbeOutcome::Failed { reason: "banned".to_string() });
    assert_eq!(evo.version_check(), "fail");
    assert!(evo.is_banned());
    assert_eq!(evo.lifecycle(), PeerStatus::Banned);
}

#[test]
fn regular_node_is_dropped() {
    let evo: Option<EvoMasternodeInfo> = listed("cc", "1.2.3.6:19999", "ENABLED", "Regular").into();
    assert_eq!(evo, None);
    let evo: Option<EvoMasternodeInfo> = listed("cc", "1.2.3.6:19999", "ENABLED", "evo").into();
    assert_eq!(evo, None);
}

#[test]
fn listing_keeps_evo_nodes_in_order() {
    let listing = vec![
        listed("a", "10.0.0.1:1", "ENABLED", "Evo"),
        listed("b", "10.0.0.2:1", "ENABLED", "Regular"),
        listed("c", "10.0.0.3:1", "POSE_BANNED", "Evo"),
        listed("d", "10.0.0.4:1", "ENABLED", "Evo"),
    ];
    let evo = load_masternode_list(listing);
    let ids: Vec<&str> = evo.iter().map(|n| n.pro_tx_hash.as_str()).collect();
    assert_eq!(ids, vec!["a", "c", "d"]);
    assert_eq!(evo[0].outcome, ProbeOutcome::Pending);
    assert_eq!(evo[1].outcome, ProbeOutcome::Failed { reason: "banned".to_string() });
    assert_eq!(evo[2].outcome, ProbeOutcome::Pending);
    assert!(!nodes_settled(&evo));
    assert!(load_masternode_list(Vec::new()).is_empty());
}

#[test]
fn status_labels_are_read() {
    assert_eq!(peer_status("POSE_BANNED"), PeerStatus::Banned);
    assert_eq!(peer_status("ENABLED"), PeerStatus::Active);
    assert_eq!(peer_status("pose_banned"), PeerStatus::Unknown);
    assert_eq!(peer_status(""), PeerStatus::Unknown);
    assert_eq!(peer_status("WAITING_FOR_PROTX"), PeerStatus::Unknown);
}

#[test]
fn outcome_buckets() {
    assert_eq!(ProbeOutcome::Pending.version_check(), "pending");
    assert!(!ProbeOutcome::Pending.is_settled());
    let failed = ProbeOutcome::failed("timeout");
    assert_eq!(failed, ProbeOutcome::Failed { reason: "timeout".to_string() });
    assert_eq!(failed.version_check(), "fail");
    assert!(failed.is_settled());
    assert!(!failed.is_modern());
    let modern = ProbeOutcome::Success { versions: versions(Some("2.1.0"), None, None) };
    assert_eq!(modern.version_check(), "success");
    assert!(modern.is_modern());
    assert!(modern.is_settled());
    let old = ProbeOutcome::Success { versions: versions(Some("1.8.0"), Some("1.8.0"), None) };
    assert_eq!(old.version_check(), "fail");
    assert!(!old.is_modern());
    assert!(old.is_settled());
    assert_eq!(modern.clone(), modern);
}

#[test]
fn reported_versions_are_handed_out() {
    let node = EvoMasternodeInfo {
        pro_tx_hash: "aa".to_string(),
        address: "1.2.3.4:19999".to_string(),
        status: "ENABLED".to_string(),
        platform_http_port: None,
        outcome: ProbeOutcome::Success { versions: versions(Some("2.0.1"), Some("1.9.0"), Some("1.4.0")) },
    };
    assert_eq!(node.dapi_version(), Some("2.0.1".to_string()));
    assert_eq!(node.drive_version(), Some("1.9.0".to_string()));
    assert_eq!(node.version_check(), "success");
    assert_eq!(node.lifecycle(), PeerStatus::Active);
    assert_eq!(node.clone(), node);
}

#[test]
fn version_check_needs_one_modern_component() {
    let none = check_node_version(&versions(None, None, None));
    assert!(!none.success);
    assert_eq!(none.dapi_version, None);
    assert_eq!(none.drive_version, None);

    let only_tenderdash = check_node_version(&versions(Some("1.0.0"), Some("1.5.0"), Some("2.0.0")));
    assert!(only_tenderdash.success);
    assert_eq!(only_tenderdash.dapi_version, Some("1.0.0".to_string()));
    assert_eq!(only_tenderdash.drive_version, Some("1.5.0".to_string()));

    let only_drive = check_node_version(&versions(Some("garbage"), Some("v2.0.0-dev.1"), None));
    assert!(only_drive.success);

    let only_dapi = check_node_version(&versions(Some("3.5.2"), None, None));
    assert!(only_dapi.success);
    assert_eq!(only_dapi.drive_version, None);

    let all_old = check_node_version(&versions(Some("1.9.9"), Some("0.25.0"), Some("1.2.3")));
    assert!(!all_old.success);
    assert_eq!(all_old.dapi_version, Some("1.9.9".to_string()));
}

#[test]
fn any_modern_looks_at_every_component() {
    assert!(!versions(None, None, None).any_modern());
    assert!(versions(None, None, Some("2.0.0")).any_modern());
    assert!(versions(None, Some("2.0.0"), None).any_modern());
    assert!(versions(Some("2.0.0"), None, None).any_modern());
    assert!(!versions(Some(""), Some("1.0.0"), Some("x")).any_modern());
}

#[test]
fn endpoint_is_https_host_and_port() {
    assert_eq!(endpoint("1.2.3.4", 1443), "https://1.2.3.4:1443");
    assert_eq!(endpoint("host.docker.internal", 443), "https://host.docker.internal:443");
    assert_eq!(endpoint("", 0), "https://:0");
    assert_eq!(endpoint("h", 65535), "https://h:65535");
    assert_eq!(endpoint("h", 10), "https://h:10");
}
