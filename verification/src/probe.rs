//! The fan-out of version probes over the masternodes: which nodes to ask, where, and
//! what to record of each once the answers are in.

use crate::grpc_client::{SoftwareVersions, SoftwareVersionsView};
use crate::masternode::{
    all_settled, is_modern_success, EvoMasternodeInfo, EvoMasternodeList, EvoMasternodeView,
    ProbeOutcome, ProbeOutcomeView,
};
use crate::text::{chars_of, count_char, first_index, lemma_first_index_is};
use vstd::prelude::*;
use vstd::string::*;

verus! {

/// What came back from asking one masternode for its status.
#[derive(Debug, PartialEq, Eq)]
pub enum ProbeReply {
    /// The node answered with these software versions.
    Data { versions: SoftwareVersions },
    /// The call failed with this error.
    Error { message: String },
    /// No answer came within the time allowed.
    TimedOut,
}

pub enum ProbeReplyView {
    Data { versions: SoftwareVersionsView },
    Error { message: Seq<char> },
    TimedOut,
}

impl View for ProbeReply {
    type V = ProbeReplyView;

    open spec fn view(&self) -> ProbeReplyView {
        match self {
            ProbeReply::Data { versions } => ProbeReplyView::Data { versions: versions@ },
            ProbeReply::Error { message } => ProbeReplyView::Error { message: message@ },
            ProbeReply::TimedOut => ProbeReplyView::TimedOut,
        }
    }
}

/// A reply with the time the call took, in milliseconds.
#[derive(Debug, PartialEq, Eq)]
pub struct ProbeReport {
    pub reply: ProbeReply,
    pub elapsed_ms: u64,
}

pub struct ProbeReportView {
    pub reply: ProbeReplyView,
    pub elapsed_ms: u64,
}

impl View for ProbeReport {
    type V = ProbeReportView;

    open spec fn view(&self) -> ProbeReportView {
        ProbeReportView { reply: self.reply@, elapsed_ms: self.elapsed_ms }
    }
}

impl DeepView for ProbeReport {
    type V = ProbeReportView;

    open spec fn deep_view(&self) -> ProbeReportView {
        self@
    }
}

/// What to do about one masternode in a fan-out.
#[derive(Debug, PartialEq, Eq)]
pub enum ProbePlan {
    /// Make no call: the node fails for this reason.
    Skip { reason: String },
    /// Ask the node at this host and port.
    Call { host: String, port: u16 },
}

pub enum ProbePlanView {
    Skip { reason: Seq<char> },
    Call { host: Seq<char>, port: u16 },
}

impl View for ProbePlan {
    type V = ProbePlanView;

    open spec fn view(&self) -> ProbePlanView {
        match self {
            ProbePlan::Skip { reason } => ProbePlanView::Skip { reason: reason@ },
            ProbePlan::Call { host, port } => ProbePlanView::Call { host: host@, port: *port },
        }
    }
}

/// Whether an address has the form `host:port`: exactly one colon.
pub open spec fn well_formed_address(address: Seq<char>) -> bool {
    count_char(address, ':') == 1
}

/// The host of a well-formed address: what stands before the colon.
pub open spec fn host_of(address: Seq<char>) -> Seq<char> {
    address.take(first_index(address, ':'))
}

/// Why a masternode is not asked, if it is not: a banned node is never asked, nor one
/// whose address is malformed.
pub open spec fn skip_reason(peer: EvoMasternodeView) -> Option<Seq<char>> {
    if peer.is_banned() {
        Some("banned"@)
    } else if !well_formed_address(peer.address) {
        Some("bad address"@)
    } else {
        None
    }
}

/// The plan for one masternode: skip it, or ask it on the DAPI port.
pub open spec fn plan_of(peer: EvoMasternodeView, dapi_port: u16) -> ProbePlanView {
    match skip_reason(peer) {
        Some(reason) => ProbePlanView::Skip { reason },
        None => ProbePlanView::Call { host: host_of(peer.address), port: dapi_port },
    }
}

/// Whether a report counts as a timeout: none came in time, or the call took longer
/// than a node is allowed, whatever it returned in the end.
pub open spec fn timed_out(report: ProbeReportView, per_peer_timeout_ms: u64) -> bool {
    report.reply is TimedOut || report.elapsed_ms > per_peer_timeout_ms
}

/// The outcome that a report gives a node that was asked.
pub open spec fn outcome_of_report(
    report: ProbeReportView,
    per_peer_timeout_ms: u64,
) -> ProbeOutcomeView {
    if timed_out(report, per_peer_timeout_ms) {
        ProbeOutcomeView::Failed { reason: "timeout"@ }
    } else {
        match report.reply {
            ProbeReplyView::Data { versions } => ProbeOutcomeView::Success { versions },
            ProbeReplyView::Error { message } => ProbeOutcomeView::Failed { reason: message },
            ProbeReplyView::TimedOut => ProbeOutcomeView::Failed { reason: "timeout"@ },
        }
    }
}

/// The outcome of one masternode in a fan-out. A node that is skipped fails for the
/// reason it is skipped, whatever was reported; a node that was to be asked and has no
/// report did not answer in time.
pub open spec fn outcome_for(
    peer: EvoMasternodeView,
    report: Option<ProbeReportView>,
    per_peer_timeout_ms: u64,
) -> ProbeOutcomeView {
    match skip_reason(peer) {
        Some(reason) => ProbeOutcomeView::Failed { reason },
        None => match report {
            Some(r) => outcome_of_report(r, per_peer_timeout_ms),
            None => ProbeOutcomeView::Failed { reason: "timeout"@ },
        },
    }
}

/// The report for the node at position `i`, if there is one.
pub open spec fn report_at(reports: Seq<Option<ProbeReportView>>, i: int) -> Option<
    ProbeReportView,
> {
    if 0 <= i < reports.len() {
        reports[i]
    } else {
        None
    }
}

/// The masternodes after a fan-out: each keeps its place and identity and has the
/// outcome that `outcome_for` gives it.
pub open spec fn probed(
    peers: Seq<EvoMasternodeView>,
    reports: Seq<Option<ProbeReportView>>,
    per_peer_timeout_ms: u64,
) -> Seq<EvoMasternodeView> {
    Seq::new(
        peers.len(),
        |i: int| peers[i].with_outcome(outcome_for(peers[i], report_at(reports, i), per_peer_timeout_ms)),
    )
}

/// The position of the colon in an address of the form `host:port`, and `None` for any
/// other address.
fn colon_position(address: &str) -> (at: Option<usize>)
    ensures
        match at {
            Some(i) => well_formed_address(address@) && i == first_index(address@, ':') && i
                < address@.len(),
            None => !well_formed_address(address@),
        },
{
    let chars = chars_of(address);
    let mut colons: usize = 0;
    let mut first: usize = 0;
    let mut i: usize = 0;
    while i < chars.len()
        invariant
            i <= chars.len(),
            chars@ == address@,
            colons == count_char(chars@.take(i as int), ':'),
            colons <= i,
            colons == 0 ==> forall|j: int| 0 <= j < i ==> chars@[j] != ':',
            colons > 0 ==> first < i && chars@[first as int] == ':' && forall|j: int|
                0 <= j < first ==> chars@[j] != ':',
        decreases chars.len() - i,
    {
        assert(chars@.take(i + 1).drop_last() =~= chars@.take(i as int));
        if chars[i] == ':' {
            if colons == 0 {
                first = i;
            }
            colons = colons + 1;
        }
        i = i + 1;
    }
    assert(chars@.take(i as int) =~= chars@);
    if colons == 1 {
        proof {
            lemma_first_index_is(address@, ':', first as int);
        }
        Some(first)
    } else {
        None
    }
}

/// The host of an address of the form `host:port`, and `None` for any other address.
pub fn split_address(address: &str) -> (host: Option<String>)
    ensures
        host.deep_view() == if well_formed_address(address@) {
            Some(host_of(address@))
        } else {
            None
        },
{
    match colon_position(address) {
        Some(at) => Some(String::from_str(address.substring_char(0, at))),
        None => None,
    }
}

/// Why the node is not asked, if it is not.
fn find_skip_reason(peer: &EvoMasternodeInfo) -> (reason: Option<&'static str>)
    ensures
        reason.deep_view() == skip_reason(peer@),
{
    if peer.is_banned() {
        Some("banned")
    } else if colon_position(peer.address.as_str()).is_none() {
        Some("bad address")
    } else {
        None
    }
}

/// Plans the probe of one masternode. A banned node and a node with a malformed
/// address are skipped; every other node is to be asked at the host of its address, on
/// the DAPI port of the network.
pub fn plan_probe(peer: &EvoMasternodeInfo, dapi_port: u16) -> (plan: ProbePlan)
    ensures
        plan@ == plan_of(peer@, dapi_port),
{
    if peer.is_banned() {
        return ProbePlan::Skip { reason: String::from_str("banned") };
    }
    match split_address(peer.address.as_str()) {
        Some(host) => ProbePlan::Call { host, port: dapi_port },
        None => ProbePlan::Skip { reason: String::from_str("bad address") },
    }
}

/// The outcome that a report gives a node that was asked: `timeout` where the call ran
/// out of time, else the versions it returned or the error it failed with.
pub fn classify_report(report: &ProbeReport, per_peer_timeout_ms: u64) -> (outcome: ProbeOutcome)
    ensures
        outcome@ == outcome_of_report(report@, per_peer_timeout_ms),
{
    if report.elapsed_ms > per_peer_timeout_ms {
        return ProbeOutcome::failed("timeout");
    }
    match &report.reply {
        ProbeReply::Data { versions } => ProbeOutcome::Success { versions: versions.clone() },
        ProbeReply::Error { message } => ProbeOutcome::Failed { reason: message.clone() },
        ProbeReply::TimedOut => ProbeOutcome::failed("timeout"),
    }
}

/// Settles one masternode of a fan-out on what was reported for it.
pub fn settle_peer(
    peer: EvoMasternodeInfo,
    report: Option<&ProbeReport>,
    per_peer_timeout_ms: u64,
) -> (settled: EvoMasternodeInfo)
    ensures
        settled@ == peer@.with_outcome(
            outcome_for(peer@, report.deep_view(), per_peer_timeout_ms),
        ),
{
    let outcome = match find_skip_reason(&peer) {
        Some(reason) => ProbeOutcome::failed(reason),
        None => match report {
            Some(r) => classify_report(r, per_peer_timeout_ms),
            None => ProbeOutcome::failed("timeout"),
        },
    };
    EvoMasternodeInfo {
        pro_tx_hash: peer.pro_tx_hash,
        address: peer.address,
        status: peer.status,
        platform_http_port: peer.platform_http_port,
        outcome,
    }
}

/// Completes a fan-out: given what was reported for each masternode, by position,
/// returns the same nodes in the same order, each with its outcome. No node's failure
/// stands in the way of another's outcome, and no node is left pending.
pub fn probe_all(
    peers: EvoMasternodeList,
    reports: &Vec<Option<ProbeReport>>,
    per_peer_timeout_ms: u64,
) -> (settled: EvoMasternodeList)
    ensures
        settled.deep_view() == probed(peers.deep_view(), reports.deep_view(), per_peer_timeout_ms),
        settled.len() == peers.len(),
        forall|i: int|
            0 <= i < peers.len() ==> {
                &&& (#[trigger] settled[i])@.pro_tx_hash == peers[i]@.pro_tx_hash
                &&& settled[i]@.address == peers[i]@.address
                &&& settled[i]@.status == peers[i]@.status
                &&& !(settled[i]@.outcome is Pending)
            },
        forall|i: int|
            0 <= i < peers.len() && peers[i]@.is_banned() ==> (#[trigger] settled[i])@.outcome == (
            ProbeOutcomeView::Failed { reason: "banned"@ }),
{
    let ghost all = peers@;
    let ghost goal = probed(peers.deep_view(), reports.deep_view(), per_peer_timeout_ms);
    let mut settled: Vec<EvoMasternodeInfo> = Vec::new();
    for peer in it: peers
        invariant
            it.seq() == all,
            goal == probed(all.map_values(|p: EvoMasternodeInfo| p@), reports.deep_view(), per_peer_timeout_ms),
            settled.len() == it.index(),
            settled.deep_view() == goal.take(it.index() as int),
    {
        let i: usize = settled.len();
        let ghost before = settled.deep_view();
        let node = if i < reports.len() {
            settle_peer(peer, reports[i].as_ref(), per_peer_timeout_ms)
        } else {
            settle_peer(peer, None, per_peer_timeout_ms)
        };
        assert(node@ == goal[i as int]) by {
            assert(all.map_values(|p: EvoMasternodeInfo| p@)[i as int] == peer@);
            assert(i < reports.len() ==> reports.deep_view()[i as int] == reports[i as int].deep_view());
        }
        settled.push(node);
        assert(settled.deep_view() =~= before.push(node@));
        assert(goal.take(i + 1) =~= goal.take(i as int).push(goal[i as int]));
    }
    assert(goal.take(all.len() as int) =~= goal);
    assert forall|i: int| 0 <= i < all.len() implies {
        &&& (#[trigger] settled[i])@.pro_tx_hash == all[i]@.pro_tx_hash
        &&& settled[i]@.address == all[i]@.address
        &&& settled[i]@.status == all[i]@.status
        &&& !(settled[i]@.outcome is Pending)
        &&& all[i]@.is_banned() ==> settled[i]@.outcome == (ProbeOutcomeView::Failed {
            reason: "banned"@,
        })
    } by {
        assert(settled[i]@ == settled.deep_view()[i]);
        assert(all.map_values(|p: EvoMasternodeInfo| p@)[i] == all[i]@);
    }
    settled
}

/// How many nodes answered with a modern component.
pub open spec fn count_success(nodes: Seq<EvoMasternodeView>) -> nat
    decreases nodes.len(),
{
    if nodes.len() == 0 {
        0
    } else {
        count_success(nodes.drop_last()) + if is_modern_success(nodes.last().outcome) {
            1nat
        } else {
            0nat
        }
    }
}

/// Whether an outcome is reported as a failure: the node could not be asked or did not
/// answer, or it answered and no component is modern.
pub open spec fn is_reported_failure(outcome: ProbeOutcomeView) -> bool {
    !(outcome is Pending) && !is_modern_success(outcome)
}

/// How many nodes are reported as failures.
pub open spec fn count_fail(nodes: Seq<EvoMasternodeView>) -> nat
    decreases nodes.len(),
{
    if nodes.len() == 0 {
        0
    } else {
        count_fail(nodes.drop_last()) + if is_reported_failure(nodes.last().outcome) {
            1nat
        } else {
            0nat
        }
    }
}

/// Neither count exceeds the number of nodes, and where every node has an outcome the
/// two add up to it.
pub proof fn lemma_counts(nodes: Seq<EvoMasternodeView>)
    ensures
        count_success(nodes) + count_fail(nodes) <= nodes.len(),
        all_settled(nodes) ==> count_success(nodes) + count_fail(nodes) == nodes.len(),
    decreases nodes.len(),
{
    if nodes.len() > 0 {
        let front = nodes.drop_last();
        lemma_counts(front);
        if all_settled(nodes) {
            assert forall|i: int| 0 <= i < front.len() implies !(#[trigger] front[i].outcome
                is Pending) by {
                assert(front[i] == nodes[i]);
            }
            assert(!(nodes[nodes.len() - 1].outcome is Pending));
        }
    }
}

/// The counts that a refresh reports: the nodes that passed the version check and
/// those that failed it.
#[derive(Debug, Clone, Copy, PartialEq, Eq, Structural)]
pub struct Tally {
    pub success: usize,
    pub fail: usize,
}

/// Counts the nodes that passed the version check and those that failed it.
pub fn tally(nodes: &EvoMasternodeList) -> (counts: Tally)
    ensures
        counts.success == count_success(nodes.deep_view()),
        counts.fail == count_fail(nodes.deep_view()),
{
    let ghost all = nodes.deep_view();
    let mut success: usize = 0;
    let mut fail: usize = 0;
    let mut i: usize = 0;
    while i < nodes.len()
        invariant
            i <= nodes.len(),
            all == nodes.deep_view(),
            success == count_success(all.take(i as int)),
            fail == count_fail(all.take(i as int)),
            success + fail <= i,
        decreases nodes.len() - i,
    {
        assert(all.take(i + 1).drop_last() =~= all.take(i as int));
        assert(all.take(i + 1).last() == nodes[i as int]@);
        let outcome = &nodes[i].outcome;
        if outcome.is_modern() {
            success = success + 1;
        } else if outcome.is_settled() {
            fail = fail + 1;
        }
        i = i + 1;
    }
    assert(all.take(i as int) =~= all);
    Tally { success, fail }
}

/// A node whose probe ran out of time.
#[derive(Debug, Clone, PartialEq, Eq)]
pub struct SlowNode {
    /// The node's position among the nodes of the fan-out.
    pub index: usize,
    pub address: String,
    /// How long the node's probe was reported to have taken.
    pub elapsed_ms: u64,
}

/// Whether the node at position `i` was asked and its report counts as a timeout.
pub open spec fn is_slow(
    peers: Seq<EvoMasternodeView>,
    reports: Seq<Option<ProbeReportView>>,
    per_peer_timeout_ms: u64,
    i: int,
) -> bool {
    &&& 0 <= i < peers.len()
    &&& skip_reason(peers[i]) is None
    &&& report_at(reports, i) matches Some(r) && timed_out(r, per_peer_timeout_ms)
}

/// Whether slow node `a` is listed before slow node `b`: the slower one first, and of
/// two that took the same time the one that stands first among the nodes.
pub open spec fn listed_before(a: SlowNode, b: SlowNode) -> bool {
    a.elapsed_ms > b.elapsed_ms || (a.elapsed_ms == b.elapsed_ms && a.index < b.index)
}

/// Whether `slow` lists exactly the slow nodes of a fan-out, the slowest first.
pub open spec fn lists_slow_nodes(
    slow: Seq<SlowNode>,
    peers: Seq<EvoMasternodeView>,
    reports: Seq<Option<ProbeReportView>>,
    per_peer_timeout_ms: u64,
    limit: int,
) -> bool {
    &&& forall|k: int|
        0 <= k < slow.len() ==> {
            let node = #[trigger] slow[k];
            &&& node.index < limit
            &&& is_slow(peers, reports, per_peer_timeout_ms, node.index as int)
            &&& node.address@ == peers[node.index as int].address
            &&& node.elapsed_ms == reports[node.index as int]->0.elapsed_ms
        }
    &&& forall|i: int|
        0 <= i < limit && is_slow(peers, reports, per_peer_timeout_ms, i) ==> exists|k: int|
            0 <= k < slow.len() && (#[trigger] slow[k]).index == i
    &&& forall|k: int, l: int|
        0 <= k < l < slow.len() ==> listed_before(#[trigger] slow[k], #[trigger] slow[l])
}

/// The nodes of a fan-out whose probe ran out of time, the slowest first. Of two that
/// took the same time, the one that stands first among the nodes comes first.
pub fn slow_nodes(
    peers: &EvoMasternodeList,
    reports: &Vec<Option<ProbeReport>>,
    per_peer_timeout_ms: u64,
) -> (slow: Vec<SlowNode>)
    ensures
        lists_slow_nodes(
            slow@,
            peers.deep_view(),
            reports.deep_view(),
            per_peer_timeout_ms,
            peers.len() as int,
        ),
{
    let ghost all = peers.deep_view();
    let ghost given = reports.deep_view();
    let mut slow: Vec<SlowNode> = Vec::new();
    let mut i: usize = 0;
    while i < peers.len()
        invariant
            i <= peers.len(),
            all == peers.deep_view(),
            given == reports.deep_view(),
            lists_slow_nodes(slow@, all, given, per_peer_timeout_ms, i as int),
        decreases peers.len() - i,
    {
        let ghost before = slow@;
        let mut found: Option<u64> = None;
        if i < reports.len() {
            assert(given[i as int] == reports[i as int].deep_view());
            match &reports[i] {
                Some(report) => {
                    let late = match report.reply {
                        ProbeReply::TimedOut => true,
                        _ => report.elapsed_ms > per_peer_timeout_ms,
                    };
                    if late && find_skip_reason(&peers[i]).is_none() {
                        found = Some(report.elapsed_ms);
                    }
                },
                None => {},
            }
        }
        assert(found is Some <==> is_slow(all, given, per_peer_timeout_ms, i as int));
        match found {
            Some(elapsed_ms) => {
                let mut at: usize = 0;
                while at < slow.len() && slow[at].elapsed_ms >= elapsed_ms
                    invariant
                        at <= slow.len(),
                        forall|k: int| 0 <= k < at ==> (#[trigger] slow[k]).elapsed_ms >= elapsed_ms,
                    decreases slow.len() - at,
                {
                    at = at + 1;
                }
                let node = SlowNode { index: i, address: peers[i].address.clone(), elapsed_ms };
                slow.insert(at, node);
                proof {
                    let after = slow@;
                    assert(after.len() == before.len() + 1);
                    assert(after[at as int] == node);
                    assert forall|k: int| 0 <= k < after.len() implies {
                        let n = #[trigger] after[k];
                        &&& n.index < i + 1
                        &&& is_slow(all, given, per_peer_timeout_ms, n.index as int)
                        &&& n.address@ == all[n.index as int].address
                        &&& n.elapsed_ms == given[n.index as int]->0.elapsed_ms
                    } by {
                        if k < at {
                            assert(after[k] == before[k]);
                        } else if k > at {
                            assert(after[k] == before[k - 1]);
                        }
                    }
                    assert forall|j: int|
                        0 <= j < i + 1 && is_slow(
                            all,
                            given,
                            per_peer_timeout_ms,
                            j,
                        ) implies exists|k: int|
                        0 <= k < after.len() && (#[trigger] after[k]).index == j by {
                        if j == i {
                            assert(after[at as int].index == j);
                        } else {
                            let k0 = choose|k: int|
                                0 <= k < before.len() && (#[trigger] before[k]).index == j;
                            if k0 < at {
                                assert(after[k0] == before[k0]);
                            } else {
                                assert(after[k0 + 1] == before[k0]);
                            }
                        }
                    }
                    assert forall|k: int, l: int| 0 <= k < l < after.len() implies listed_before(
                        #[trigger] after[k],
                        #[trigger] after[l],
                    ) by {
                        if l < at {
                            assert(after[k] == before[k]);
                            assert(after[l] == before[l]);
                        } else if l == at {
                            assert(after[k] == before[k]);
                        } else if k < at {
                            assert(after[k] == before[k]);
                            assert(after[l] == before[l - 1]);
                        } else if k == at {
                            assert(after[l] == before[l - 1]);
                            assert(listed_before(before[at as int], before[l - 1]) || l - 1 == at);
                        } else {
                            assert(after[k] == before[k - 1]);
                            assert(after[l] == before[l - 1]);
                        }
                    }
                }
            },
            None => {},
        }
        i = i + 1;
    }
    slow
}

/// A fan-out returns as many nodes as it was given, each in its place with its identity,
/// and leaves none pending.
pub proof fn lemma_fan_out_is_complete(
    peers: Seq<EvoMasternodeView>,
    reports: Seq<Option<ProbeReportView>>,
    per_peer_timeout_ms: u64,
)
    ensures
        probed(peers, reports, per_peer_timeout_ms).len() == peers.len(),
        forall|i: int|
            0 <= i < peers.len() ==> {
                let settled = #[trigger] probed(peers, reports, per_peer_timeout_ms)[i];
                &&& settled.pro_tx_hash == peers[i].pro_tx_hash
                &&& settled.address == peers[i].address
                &&& settled.status == peers[i].status
                &&& settled.platform_http_port == peers[i].platform_http_port
            },
        all_settled(probed(peers, reports, per_peer_timeout_ms)),
{
}

/// A banned node is never asked, and fails as banned whatever is reported for it.
pub proof fn lemma_banned_is_never_asked(
    peer: EvoMasternodeView,
    dapi_port: u16,
    report: Option<ProbeReportView>,
    per_peer_timeout_ms: u64,
)
    requires
        peer.is_banned(),
    ensures
        plan_of(peer, dapi_port) == (ProbePlanView::Skip { reason: "banned"@ }),
        outcome_for(peer, report, per_peer_timeout_ms) == (ProbeOutcomeView::Failed {
            reason: "banned"@,
        }),
{
}

/// A node that was asked and took longer than a node is allowed fails with `timeout`,
/// even where its call returned an answer in the end.
pub proof fn lemma_late_answer_is_timeout(
    peer: EvoMasternodeView,
    report: ProbeReportView,
    per_peer_timeout_ms: u64,
)
    requires
        skip_reason(peer) is None,
        report.elapsed_ms > per_peer_timeout_ms,
    ensures
        outcome_for(peer, Some(report), per_peer_timeout_ms) == (ProbeOutcomeView::Failed {
            reason: "timeout"@,
        }),
{
}

/// One node's report has no part in another node's outcome.
pub proof fn lemma_failures_are_isolated(
    peers: Seq<EvoMasternodeView>,
    reports: Seq<Option<ProbeReportView>>,
    other_reports: Seq<Option<ProbeReportView>>,
    per_peer_timeout_ms: u64,
    i: int,
)
    requires
        0 <= i < peers.len(),
        report_at(reports, i) == report_at(other_reports, i),
    ensures
        probed(peers, reports, per_peer_timeout_ms)[i] == probed(
            peers,
            other_reports,
            per_peer_timeout_ms,
        )[i],
{
}

} // verus!
