//! Masternodes as Dash Core lists them, and the Evo masternodes among them with the
//! outcome of their version probe.

use crate::grpc_client::{any_modern, SoftwareVersions, SoftwareVersionsView};
use crate::text::{copy_text, text_eq};
use vstd::prelude::*;
use vstd::string::*;

verus! {

/// One entry of Dash Core's masternode list.
#[derive(Debug, Clone, PartialEq, Eq)]
pub struct MasternodeInfo {
    pub pro_tx_hash: String,
    pub address: String,
    pub payee: String,
    pub status: String,
    pub node_type: String,
    pub platform_node_id: Option<String>,
    pub platform_p2p_port: Option<u16>,
    pub platform_http_port: Option<u16>,
    pub pos_penalty_score: u32,
    pub consecutive_payments: u32,
    pub last_paid_time: u64,
    pub last_paid_block: u32,
    pub owner_address: String,
    pub voting_address: String,
    pub collateral_address: String,
    pub pubkey_operator: String,
}

/// How a masternode stands with the network.
#[derive(Debug, Clone, Copy, PartialEq, Eq, Structural)]
pub enum PeerStatus {
    /// Enabled and in good standing.
    Active,
    /// Banned for failing proof of service.
    Banned,
    /// Any status this library gives no meaning to.
    Unknown,
}

/// The lifecycle status that a status label of Dash Core stands for.
pub open spec fn status_of(label: Seq<char>) -> PeerStatus {
    if label == "POSE_BANNED"@ {
        PeerStatus::Banned
    } else if label == "ENABLED"@ {
        PeerStatus::Active
    } else {
        PeerStatus::Unknown
    }
}

/// Reads a status label of Dash Core: `POSE_BANNED` is banned, `ENABLED` is active.
pub fn peer_status(label: &str) -> (status: PeerStatus)
    ensures
        status == status_of(label@),
{
    if text_eq(label, "POSE_BANNED") {
        PeerStatus::Banned
    } else if text_eq(label, "ENABLED") {
        PeerStatus::Active
    } else {
        PeerStatus::Unknown
    }
}

/// What probing a masternode for its software versions came to.
#[derive(Debug, PartialEq, Eq)]
pub enum ProbeOutcome {
    /// Not probed yet.
    Pending,
    /// The node answered. Whether it is modern follows from the versions.
    Success { versions: SoftwareVersions },
    /// The node was not asked, or gave no answer.
    Failed { reason: String },
}

pub enum ProbeOutcomeView {
    Pending,
    Success { versions: SoftwareVersionsView },
    Failed { reason: Seq<char> },
}

impl View for ProbeOutcome {
    type V = ProbeOutcomeView;

    open spec fn view(&self) -> ProbeOutcomeView {
        match self {
            ProbeOutcome::Pending => ProbeOutcomeView::Pending,
            ProbeOutcome::Success { versions } => ProbeOutcomeView::Success { versions: versions@ },
            ProbeOutcome::Failed { reason } => ProbeOutcomeView::Failed { reason: reason@ },
        }
    }
}

impl DeepView for ProbeOutcome {
    type V = ProbeOutcomeView;

    open spec fn deep_view(&self) -> ProbeOutcomeView {
        self@
    }
}

impl Clone for ProbeOutcome {
    fn clone(&self) -> (copy: Self)
        ensures
            copy@ == self@,
    {
        match self {
            ProbeOutcome::Pending => ProbeOutcome::Pending,
            ProbeOutcome::Success { versions } => ProbeOutcome::Success {
                versions: versions.clone(),
            },
            ProbeOutcome::Failed { reason } => ProbeOutcome::Failed { reason: reason.clone() },
        }
    }
}

/// Whether the outcome is that of a node that answered with a modern component.
pub open spec fn is_modern_success(outcome: ProbeOutcomeView) -> bool {
    outcome matches ProbeOutcomeView::Success { versions } && any_modern(versions)
}

/// The bucket an outcome is reported under: `success` for a node that answered with a
/// modern component, `pending` for one not probed yet, `fail` for every other.
pub open spec fn version_check_label(outcome: ProbeOutcomeView) -> Seq<char> {
    match outcome {
        ProbeOutcomeView::Pending => "pending"@,
        ProbeOutcomeView::Success { versions } => if any_modern(versions) {
            "success"@
        } else {
            "fail"@
        },
        ProbeOutcomeView::Failed { .. } => "fail"@,
    }
}

/// The three buckets are apart: an outcome is reported as `success` exactly where the
/// node answered with a modern component, as `pending` exactly where it was not probed
/// yet, and as `fail` in every other case.
pub proof fn lemma_buckets(outcome: ProbeOutcomeView)
    ensures
        version_check_label(outcome) == "success"@ <==> is_modern_success(outcome),
        version_check_label(outcome) == "pending"@ <==> outcome is Pending,
        version_check_label(outcome) == "fail"@ <==> !(outcome is Pending) && !is_modern_success(
            outcome,
        ),
{
    reveal_strlit("success");
    reveal_strlit("pending");
    reveal_strlit("fail");
    assert("success"@.len() == 7 && "pending"@.len() == 7 && "fail"@.len() == 4);
    assert("success"@[0] == 's' && "pending"@[0] == 'p');
}

impl ProbeOutcome {
    /// A failure with the given reason.
    pub fn failed(reason: &str) -> (outcome: ProbeOutcome)
        ensures
            outcome@ == (ProbeOutcomeView::Failed { reason: reason@ }),
    {
        ProbeOutcome::Failed { reason: String::from_str(reason) }
    }

    /// Whether the node was probed, or settled without a probe.
    pub fn is_settled(&self) -> (settled: bool)
        ensures
            settled == !(self@ is Pending),
    {
        match self {
            ProbeOutcome::Pending => false,
            _ => true,
        }
    }

    /// Whether the node answered, and with a modern component.
    pub fn is_modern(&self) -> (verdict: bool)
        ensures
            verdict == is_modern_success(self@),
    {
        match self {
            ProbeOutcome::Success { versions } => versions.any_modern(),
            _ => false,
        }
    }

    /// The bucket this outcome is reported under: `success`, `fail` or `pending`.
    pub fn version_check(&self) -> (label: &'static str)
        ensures
            label@ == version_check_label(self@),
    {
        match self {
            ProbeOutcome::Pending => "pending",
            ProbeOutcome::Success { versions } => if versions.any_modern() {
                "success"
            } else {
                "fail"
            },
            ProbeOutcome::Failed { .. } => "fail",
        }
    }
}

/// An Evo masternode with the outcome of its version probe.
#[derive(Debug, PartialEq, Eq)]
pub struct EvoMasternodeInfo {
    pub pro_tx_hash: String,
    pub address: String,
    pub status: String,
    pub platform_http_port: Option<u16>,
    pub outcome: ProbeOutcome,
}

pub struct EvoMasternodeView {
    pub pro_tx_hash: Seq<char>,
    pub address: Seq<char>,
    pub status: Seq<char>,
    pub platform_http_port: Option<u16>,
    pub outcome: ProbeOutcomeView,
}

impl View for EvoMasternodeInfo {
    type V = EvoMasternodeView;

    open spec fn view(&self) -> EvoMasternodeView {
        EvoMasternodeView {
            pro_tx_hash: self.pro_tx_hash@,
            address: self.address@,
            status: self.status@,
            platform_http_port: self.platform_http_port,
            outcome: self.outcome@,
        }
    }
}

impl DeepView for EvoMasternodeInfo {
    type V = EvoMasternodeView;

    open spec fn deep_view(&self) -> EvoMasternodeView {
        self@
    }
}

impl Clone for EvoMasternodeInfo {
    fn clone(&self) -> (copy: Self)
        ensures
            copy@ == self@,
    {
        EvoMasternodeInfo {
            pro_tx_hash: self.pro_tx_hash.clone(),
            address: self.address.clone(),
            status: self.status.clone(),
            platform_http_port: self.platform_http_port,
            outcome: self.outcome.clone(),
        }
    }
}

pub type MasternodeList = Vec<MasternodeInfo>;

pub type EvoMasternodeList = Vec<EvoMasternodeInfo>;

impl EvoMasternodeView {
    /// Whether the node is banned.
    pub open spec fn is_banned(self) -> bool {
        status_of(self.status) == PeerStatus::Banned
    }

    /// The same node with another probe outcome.
    pub open spec fn with_outcome(self, outcome: ProbeOutcomeView) -> EvoMasternodeView {
        EvoMasternodeView { outcome, ..self }
    }
}

impl EvoMasternodeInfo {
    /// How the node stands with the network.
    pub fn lifecycle(&self) -> (status: PeerStatus)
        ensures
            status == status_of(self@.status),
    {
        peer_status(self.status.as_str())
    }

    /// Whether the node is banned.
    pub fn is_banned(&self) -> (banned: bool)
        ensures
            banned == self@.is_banned(),
    {
        text_eq(self.status.as_str(), "POSE_BANNED")
    }

    /// The bucket the node's probe outcome is reported under: `success`, `fail` or
    /// `pending`.
    pub fn version_check(&self) -> (label: &'static str)
        ensures
            label@ == version_check_label(self@.outcome),
    {
        self.outcome.version_check()
    }

    /// The DAPI version the node reported, if it answered and reported one.
    pub fn dapi_version(&self) -> (version: Option<String>)
        ensures
            version.deep_view() == match self@.outcome {
                ProbeOutcomeView::Success { versions } => versions.dapi,
                _ => None,
            },
    {
        match &self.outcome {
            ProbeOutcome::Success { versions } => copy_text(&versions.dapi),
            _ => None,
        }
    }

    /// The Drive version the node reported, if it answered and reported one.
    pub fn drive_version(&self) -> (version: Option<String>)
        ensures
            version.deep_view() == match self@.outcome {
                ProbeOutcomeView::Success { versions } => versions.drive,
                _ => None,
            },
    {
        match &self.outcome {
            ProbeOutcome::Success { versions } => copy_text(&versions.drive),
            _ => None,
        }
    }
}

/// Whether every node has an outcome: none still awaits its probe.
pub open spec fn all_settled(peers: Seq<EvoMasternodeView>) -> bool {
    forall|i: int| 0 <= i < peers.len() ==> !(#[trigger] peers[i].outcome is Pending)
}

/// A copy of a list of masternodes.
pub fn copy_nodes(nodes: &EvoMasternodeList) -> (copy: EvoMasternodeList)
    ensures
        copy.deep_view() == nodes.deep_view(),
{
    let mut copy: Vec<EvoMasternodeInfo> = Vec::new();
    let mut i: usize = 0;
    while i < nodes.len()
        invariant
            i <= nodes.len(),
            copy.len() == i,
            forall|j: int| 0 <= j < i ==> copy[j]@ == nodes[j]@,
        decreases nodes.len() - i,
    {
        copy.push(nodes[i].clone());
        i = i + 1;
    }
    assert(copy.deep_view() =~= nodes.deep_view());
    copy
}

/// Whether every node of a list has an outcome.
pub fn nodes_settled(nodes: &EvoMasternodeList) -> (settled: bool)
    ensures
        settled == all_settled(nodes.deep_view()),
{
    let mut i: usize = 0;
    while i < nodes.len()
        invariant
            i <= nodes.len(),
            forall|j: int| 0 <= j < i ==> !(#[trigger] nodes.deep_view()[j].outcome is Pending),
        decreases nodes.len() - i,
    {
        if !nodes[i].outcome.is_settled() {
            assert(nodes.deep_view()[i as int].outcome is Pending);
            return false;
        }
        i = i + 1;
    }
    true
}

/// Whether a listed masternode is an Evo node.
pub open spec fn is_evo(info: MasternodeInfo) -> bool {
    info.node_type@ == "Evo"@
}

/// The Evo masternode that a listed Evo node starts as: a banned node has already
/// failed, any other awaits its probe.
pub open spec fn seed_of(info: MasternodeInfo) -> EvoMasternodeView {
    EvoMasternodeView {
        pro_tx_hash: info.pro_tx_hash@,
        address: info.address@,
        status: info.status@,
        platform_http_port: info.platform_http_port,
        outcome: if info.status@ == "POSE_BANNED"@ {
            ProbeOutcomeView::Failed { reason: "banned"@ }
        } else {
            ProbeOutcomeView::Pending
        },
    }
}

/// What `Option::<EvoMasternodeInfo>::from` makes of a listed masternode.
pub open spec fn evo_of(info: MasternodeInfo) -> Option<EvoMasternodeView> {
    if is_evo(info) {
        Some(seed_of(info))
    } else {
        None
    }
}

impl From<MasternodeInfo> for Option<EvoMasternodeInfo> {
    /// Keeps an Evo node, as `seed_of` describes it, and drops any other.
    fn from(info: MasternodeInfo) -> (evo: Self)
        ensures
            evo.deep_view() == evo_of(info),
    {
        if text_eq(info.node_type.as_str(), "Evo") {
            let outcome = if text_eq(info.status.as_str(), "POSE_BANNED") {
                ProbeOutcome::failed("banned")
            } else {
                ProbeOutcome::Pending
            };
            Some(
                EvoMasternodeInfo {
                    pro_tx_hash: info.pro_tx_hash,
                    address: info.address,
                    status: info.status,
                    platform_http_port: info.platform_http_port,
                    outcome,
                },
            )
        } else {
            None
        }
    }
}

impl vstd::std_specs::convert::FromSpecImpl<MasternodeInfo> for Option<EvoMasternodeInfo> {
    open spec fn obeys_from_spec() -> bool {
        false
    }

    open spec fn from_spec(info: MasternodeInfo) -> Option<EvoMasternodeInfo> {
        arbitrary()
    }
}

/// The Evo masternodes of a listing, in the listing's order.
pub open spec fn evo_nodes(listing: Seq<MasternodeInfo>) -> Seq<EvoMasternodeView>
    decreases listing.len(),
{
    if listing.len() == 0 {
        Seq::empty()
    } else {
        let front = evo_nodes(listing.drop_last());
        if is_evo(listing.last()) {
            front.push(seed_of(listing.last()))
        } else {
            front
        }
    }
}

/// Picks the Evo masternodes out of Dash Core's masternode list, each ready for its
/// version probe.
pub fn load_masternode_list(listing: MasternodeList) -> (evo: EvoMasternodeList)
    ensures
        evo.deep_view() == evo_nodes(listing@),
{
    let ghost all = listing@;
    let mut evo: Vec<EvoMasternodeInfo> = Vec::new();
    for info in it: listing
        invariant
            it.seq() == all,
            evo.deep_view() == evo_nodes(it.seq().take(it.index() as int)),
    {
        let ghost seen = it.seq().take(it.index() + 1);
        assert(seen.drop_last() =~= it.seq().take(it.index() as int));
        assert(seen.last() == info);
        let ghost before = evo.deep_view();
        let kept: Option<EvoMasternodeInfo> = Option::<EvoMasternodeInfo>::from(info);
        match kept {
            Some(node) => {
                evo.push(node);
                assert(evo.deep_view() =~= before.push(node@));
            },
            None => {},
        }
    }
    assert(all.take(all.len() as int) =~= all);
    evo
}

} // verus!
