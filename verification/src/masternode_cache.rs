//! The masternode cache: decides when the masternode view is refreshed, lets one refresh
//! run at a time, and publishes what a refresh found.
//!
//! The cache makes no call itself. Its caller asks it what to do (`get_masternodes`,
//! `start_background_refresh`), does the network's part of a refresh where the cache
//! says so, and hands what came back to `update_cache`.

use crate::config::{Config, ConfigView};
use crate::masternode::{all_settled, copy_nodes, EvoMasternodeList, EvoMasternodeView};
use crate::probe::{probe_all, probed, ProbeReport, ProbeReportView};
use crate::snapshot::{Snapshot, SnapshotStore, SnapshotView};
use vstd::prelude::*;

verus! {

/// How long a snapshot serves readers before a read asks for a refresh, and the period
/// of the background refresh: ten minutes.
pub const UPDATE_INTERVAL_MS: u64 = 600_000;

/// How long one masternode may take to answer: two seconds.
pub const PER_PEER_TIMEOUT_MS: u64 = 2_000;

/// How long the probes of one refresh may take together: thirty seconds.
pub const BATCH_TIMEOUT_MS: u64 = 30_000;

/// The intervals and timeouts of a cache, in milliseconds.
#[derive(Debug, Clone, Copy, PartialEq, Eq, Structural)]
pub struct RefreshTiming {
    /// The age from which a snapshot is stale and a read asks for a refresh.
    pub staleness_interval_ms: u64,
    /// The time between two refreshes that the background timer asks for.
    pub background_period_ms: u64,
    /// How long one masternode may take to answer.
    pub per_peer_timeout_ms: u64,
    /// How long the probes of one refresh may take together.
    pub batch_timeout_ms: u64,
}

impl Default for RefreshTiming {
    fn default() -> (timing: Self)
        ensures
            timing.staleness_interval_ms == UPDATE_INTERVAL_MS,
            timing.background_period_ms == UPDATE_INTERVAL_MS,
            timing.per_peer_timeout_ms == PER_PEER_TIMEOUT_MS,
            timing.batch_timeout_ms == BATCH_TIMEOUT_MS,
    {
        RefreshTiming {
            staleness_interval_ms: UPDATE_INTERVAL_MS,
            background_period_ms: UPDATE_INTERVAL_MS,
            per_peer_timeout_ms: PER_PEER_TIMEOUT_MS,
            batch_timeout_ms: BATCH_TIMEOUT_MS,
        }
    }
}

/// Why a refresh failed, or a read had nothing to return. The failure of a single
/// node's probe is no error of the cache: it is that node's outcome.
#[derive(Debug, Clone, PartialEq, Eq)]
pub enum CacheError {
    /// Dash Core did not return the masternode list.
    DirectoryUnavailable { message: String },
    /// The probes of a refresh took longer together than a refresh may.
    BatchTimeout,
    /// Nothing has been published, and the refresh that was to change that failed.
    NoSnapshotYet,
}

pub enum CacheErrorView {
    DirectoryUnavailable { message: Seq<char> },
    BatchTimeout,
    NoSnapshotYet,
}

impl View for CacheError {
    type V = CacheErrorView;

    open spec fn view(&self) -> CacheErrorView {
        match self {
            CacheError::DirectoryUnavailable { message } => CacheErrorView::DirectoryUnavailable {
                message: message@,
            },
            CacheError::BatchTimeout => CacheErrorView::BatchTimeout,
            CacheError::NoSnapshotYet => CacheErrorView::NoSnapshotYet,
        }
    }
}

impl DeepView for CacheError {
    type V = CacheErrorView;

    open spec fn deep_view(&self) -> CacheErrorView {
        self@
    }
}

/// What a reader is to do next.
#[derive(Debug, PartialEq, Eq)]
pub enum ReadStep {
    /// The snapshot is fresh: these are its masternodes.
    Serve { masternodes: EvoMasternodeList },
    /// The snapshot is stale and no refresh is running: the reader has claimed the
    /// refresh and is to run it.
    Refresh,
    /// The snapshot is stale and a refresh is running: the reader is to wait for it.
    Wait,
}

pub enum ReadStepView {
    Serve { masternodes: Seq<EvoMasternodeView> },
    Refresh,
    Wait,
}

impl View for ReadStep {
    type V = ReadStepView;

    open spec fn view(&self) -> ReadStepView {
        match self {
            ReadStep::Serve { masternodes } => ReadStepView::Serve {
                masternodes: masternodes.deep_view(),
            },
            ReadStep::Refresh => ReadStepView::Refresh,
            ReadStep::Wait => ReadStepView::Wait,
        }
    }
}

/// The state of a cache.
pub struct CacheState {
    /// The snapshot last published.
    pub snapshot: Option<SnapshotView>,
    /// Whether a refresh is running.
    pub refreshing: bool,
    /// When the last refresh completed, whether it succeeded or failed.
    pub last_completed: Option<u64>,
    pub timing: RefreshTiming,
    /// The configuration the cache was made with.
    pub config: ConfigView,
}

/// Whether a snapshot is stale at `now`: there is none, or it has reached the age of
/// the staleness interval.
pub open spec fn is_stale(snapshot: Option<SnapshotView>, now: u64, staleness_interval_ms: u64) -> bool {
    match snapshot {
        None => true,
        Some(s) => now - s.timestamp >= staleness_interval_ms,
    }
}

impl CacheState {
    /// The state with a refresh running.
    pub open spec fn claimed(self) -> CacheState {
        CacheState { refreshing: true, ..self }
    }

    /// What a read at `now` returns.
    pub open spec fn read_step(self, now: u64) -> ReadStepView {
        if !is_stale(self.snapshot, now, self.timing.staleness_interval_ms) {
            ReadStepView::Serve { masternodes: self.snapshot->0.peers }
        } else if self.refreshing {
            ReadStepView::Wait
        } else {
            ReadStepView::Refresh
        }
    }

    /// The state after a read at `now`: a read that returns `Refresh` has claimed the
    /// refresh, any other read changes nothing.
    pub open spec fn after_read(self, now: u64) -> CacheState {
        if self.read_step(now) is Refresh {
            self.claimed()
        } else {
            self
        }
    }

    /// Whether a tick of the background timer starts a refresh: always, unless one is
    /// running.
    pub open spec fn tick_starts(self) -> bool {
        !self.refreshing
    }

    /// The state after a tick of the background timer.
    pub open spec fn after_tick(self) -> CacheState {
        self.claimed()
    }

    /// What a refresh comes to. It fails where the masternode list could not be had,
    /// and where the probes took longer together than the batch timeout; else it gives
    /// the listed nodes with their outcomes.
    pub open spec fn refresh_result(
        self,
        directory: Result<Seq<EvoMasternodeView>, Seq<char>>,
        reports: Seq<Option<ProbeReportView>>,
        batch_elapsed_ms: u64,
    ) -> Result<Seq<EvoMasternodeView>, CacheErrorView> {
        match directory {
            Err(message) => Err(CacheErrorView::DirectoryUnavailable { message }),
            Ok(peers) => if batch_elapsed_ms > self.timing.batch_timeout_ms {
                Err(CacheErrorView::BatchTimeout)
            } else {
                Ok(probed(peers, reports, self.timing.per_peer_timeout_ms))
            },
        }
    }

    /// The state after a refresh that completed at `now` with `result`: no refresh is
    /// running; a success is published, a failure leaves the snapshot as it was.
    pub open spec fn after_refresh(
        self,
        result: Result<Seq<EvoMasternodeView>, CacheErrorView>,
        now: u64,
    ) -> CacheState {
        CacheState {
            snapshot: match result {
                Ok(peers) => Some(SnapshotView { peers, timestamp: now }),
                Err(_) => self.snapshot,
            },
            refreshing: false,
            last_completed: Some(now),
            ..self
        }
    }

    /// What a reader gets from the cache as it is: the masternodes last published,
    /// however old, or the error that there are none.
    pub open spec fn cached(self) -> Result<Seq<EvoMasternodeView>, CacheErrorView> {
        match self.snapshot {
            Some(s) => Ok(s.peers),
            None => Err(CacheErrorView::NoSnapshotYet),
        }
    }
}

/// The view of what `update_cache` is handed as the masternode list.
pub open spec fn directory_view(directory: Result<EvoMasternodeList, String>) -> Result<
    Seq<EvoMasternodeView>,
    Seq<char>,
> {
    match directory {
        Ok(peers) => Ok(peers.deep_view()),
        Err(message) => Err(message@),
    }
}

/// The view of what a refresh or a read returns.
pub open spec fn outcome_view<T: DeepView>(outcome: Result<T, CacheError>) -> Result<
    T::V,
    CacheErrorView,
> {
    match outcome {
        Ok(value) => Ok(value.deep_view()),
        Err(error) => Err(error@),
    }
}

/// The cache of Evo masternodes.
#[derive(Debug)]
pub struct MasternodeCache {
    data: SnapshotStore,
    last_update: Option<u64>,
    refreshing: bool,
    config: Config,
    timing: RefreshTiming,
}

impl View for MasternodeCache {
    type V = CacheState;

    closed spec fn view(&self) -> CacheState {
        CacheState {
            snapshot: self.data@,
            refreshing: self.refreshing,
            last_completed: self.last_update,
            timing: self.timing,
            config: self.config@,
        }
    }
}

impl MasternodeCache {
    /// An empty cache with the usual timing: nothing published, no refresh running.
    pub fn new(config: Config) -> (cache: MasternodeCache)
        ensures
            cache@.snapshot is None,
            !cache@.refreshing,
            cache@.last_completed is None,
            cache@.timing.staleness_interval_ms == UPDATE_INTERVAL_MS,
            cache@.timing.background_period_ms == UPDATE_INTERVAL_MS,
            cache@.timing.per_peer_timeout_ms == PER_PEER_TIMEOUT_MS,
            cache@.timing.batch_timeout_ms == BATCH_TIMEOUT_MS,
            cache@.config == config@,
    {
        MasternodeCache::with_timing(config, RefreshTiming::default())
    }

    /// An empty cache with the given timing.
    pub fn with_timing(config: Config, timing: RefreshTiming) -> (cache: MasternodeCache)
        ensures
            cache@.snapshot is None,
            !cache@.refreshing,
            cache@.last_completed is None,
            cache@.timing == timing,
            cache@.config == config@,
    {
        MasternodeCache {
            data: SnapshotStore::new(),
            last_update: None,
            refreshing: false,
            config,
            timing,
        }
    }

    /// The configuration the cache was made with.
    pub fn config(&self) -> (config: &Config)
        ensures
            config@ == self@.config,
    {
        &self.config
    }

    /// The intervals and timeouts of the cache.
    pub fn timing(&self) -> (timing: RefreshTiming)
        ensures
            timing == self@.timing,
    {
        self.timing
    }

    /// Whether a refresh is running.
    pub fn is_refreshing(&self) -> (refreshing: bool)
        ensures
            refreshing == self@.refreshing,
    {
        self.refreshing
    }

    /// When the last refresh completed, whether it succeeded or failed.
    pub fn last_update(&self) -> (completed: Option<u64>)
        ensures
            completed == self@.last_completed,
    {
        self.last_update
    }

    /// A copy of the snapshot last published, if there is one.
    pub fn snapshot(&self) -> (snapshot: Option<Snapshot>)
        ensures
            snapshot.deep_view() == self@.snapshot,
            self@.snapshot matches Some(s) ==> all_settled(s.peers),
    {
        self.data.read()
    }

    /// Serves a read at `now`. A fresh snapshot is served at once. A stale one, or
    /// none, makes the reader refresh the cache, unless a refresh is running: then the
    /// reader waits for that one, so that no two refreshes run at a time.
    pub fn get_masternodes(&mut self, now: u64) -> (step: ReadStep)
        ensures
            step@ == old(self)@.read_step(now),
            final(self)@ == old(self)@.after_read(now),
            step@ matches ReadStepView::Serve { masternodes } ==> all_settled(masternodes),
    {
        match self.data.peek() {
            Some(snapshot) => {
                let made = snapshot.timestamp();
                if !(now >= made && now - made >= self.timing.staleness_interval_ms) {
                    return ReadStep::Serve { masternodes: copy_nodes(snapshot.peers()) };
                }
            },
            None => {},
        }
        if self.refreshing {
            ReadStep::Wait
        } else {
            self.refreshing = true;
            ReadStep::Refresh
        }
    }

    /// Serves a tick of the background timer: returns whether the caller is to run a
    /// refresh. A tick starts a refresh however fresh the snapshot is, and is passed
    /// over only while a refresh is running.
    pub fn start_background_refresh(&mut self) -> (start: bool)
        ensures
            start == old(self)@.tick_starts(),
            final(self)@ == old(self)@.after_tick(),
    {
        let start = !self.refreshing;
        self.refreshing = true;
        start
    }

    /// Completes a refresh at `now`. `directory` is the list of Evo masternodes that
    /// Dash Core returned, or the error it failed with; `reports` holds what was
    /// reported for each of them, by position; `batch_elapsed_ms` is the time the
    /// probes took together. On success the nodes are published with their outcomes.
    /// On failure the error is returned and the snapshot stays as it was. Either way no
    /// refresh is running afterwards.
    pub fn update_cache(
        &mut self,
        directory: Result<EvoMasternodeList, String>,
        reports: &Vec<Option<ProbeReport>>,
        batch_elapsed_ms: u64,
        now: u64,
    ) -> (outcome: Result<(), CacheError>)
        ensures
            final(self)@ == old(self)@.after_refresh(
                old(self)@.refresh_result(
                    directory_view(directory),
                    reports.deep_view(),
                    batch_elapsed_ms,
                ),
                now,
            ),
            match old(self)@.refresh_result(
                directory_view(directory),
                reports.deep_view(),
                batch_elapsed_ms,
            ) {
                Ok(_) => outcome is Ok,
                Err(error) => outcome matches Err(e) && e@ == error,
            },
    {
        self.refreshing = false;
        self.last_update = Some(now);
        match directory {
            Err(message) => Err(CacheError::DirectoryUnavailable { message }),
            Ok(peers) => {
                if batch_elapsed_ms > self.timing.batch_timeout_ms {
                    Err(CacheError::BatchTimeout)
                } else {
                    let settled = probe_all(peers, reports, self.timing.per_peer_timeout_ms);
                    self.data.publish(Snapshot::seal(settled, now));
                    Ok(())
                }
            },
        }
    }

    /// The masternodes last published, however old, or the error that there are none.
    /// This is what a reader returns after the refresh it ran or waited for.
    pub fn cached_masternodes(&self) -> (outcome: Result<EvoMasternodeList, CacheError>)
        ensures
            outcome_view(outcome) == self@.cached(),
            outcome matches Ok(masternodes) ==> all_settled(masternodes.deep_view()),
    {
        match self.data.masternodes() {
            Some(masternodes) => Ok(masternodes),
            None => Err(CacheError::NoSnapshotYet),
        }
    }
}

/// What happens to a cache: a read, a tick of the background timer, or the completion
/// of a refresh.
pub enum CacheEvent {
    Read { now: u64 },
    Tick,
    Refreshed { result: Result<Seq<EvoMasternodeView>, CacheErrorView>, now: u64 },
}

impl CacheState {
    /// Whether the event makes its caller run a refresh.
    pub open spec fn starts_refresh(self, event: CacheEvent) -> bool {
        match event {
            CacheEvent::Read { now } => self.read_step(now) is Refresh,
            CacheEvent::Tick => self.tick_starts(),
            CacheEvent::Refreshed { .. } => false,
        }
    }

    /// The state after the event.
    pub open spec fn after_event(self, event: CacheEvent) -> CacheState {
        match event {
            CacheEvent::Read { now } => self.after_read(now),
            CacheEvent::Tick => self.after_tick(),
            CacheEvent::Refreshed { result, now } => self.after_refresh(result, now),
        }
    }

    /// The state after the events, one after the other.
    pub open spec fn after_events(self, events: Seq<CacheEvent>) -> CacheState
        decreases events.len(),
    {
        if events.len() == 0 {
            self
        } else {
            self.after_events(events.drop_last()).after_event(events.last())
        }
    }

    /// How many of the events make their caller run a refresh.
    pub open spec fn refreshes_started(self, events: Seq<CacheEvent>) -> nat
        decreases events.len(),
    {
        if events.len() == 0 {
            0
        } else {
            let before = self.after_events(events.drop_last());
            self.refreshes_started(events.drop_last()) + if before.starts_refresh(events.last()) {
                1nat
            } else {
                0nat
            }
        }
    }

    /// When the snapshot that readers see was made, and -1 while there is none.
    pub open spec fn published_at(self) -> int {
        match self.snapshot {
            Some(s) => s.timestamp as int,
            None => -1,
        }
    }
}

/// Whether none of the events is the completion of a refresh.
pub open spec fn no_refresh_completes(events: Seq<CacheEvent>) -> bool {
    forall|i: int| 0 <= i < events.len() ==> !(#[trigger] events[i] is Refreshed)
}

/// Whether the clock never ran back between the completions of refreshes, starting at
/// `floor`.
pub open spec fn completions_in_order(floor: int, events: Seq<CacheEvent>) -> bool {
    &&& forall|n: int|
        0 <= n < events.len() && (#[trigger] events[n]) is Refreshed ==> floor
            <= events[n]->Refreshed_now
    &&& forall|m: int, n: int|
        0 <= m <= n < events.len() && (#[trigger] events[m]) is Refreshed && (
        #[trigger] events[n]) is Refreshed ==> events[m]->Refreshed_now
            <= events[n]->Refreshed_now
}

/// A refresh whose probes took longer together than the batch timeout fails with
/// `BatchTimeout`, whatever the nodes reported, and changes nothing for readers: the
/// snapshot published before, if any, is the one they get.
pub proof fn lemma_batch_timeout_keeps_snapshot(
    state: CacheState,
    peers: Seq<EvoMasternodeView>,
    reports: Seq<Option<ProbeReportView>>,
    batch_elapsed_ms: u64,
    now: u64,
)
    requires
        batch_elapsed_ms > state.timing.batch_timeout_ms,
    ensures
        state.refresh_result(Ok(peers), reports, batch_elapsed_ms) == Err::<
            Seq<EvoMasternodeView>,
            CacheErrorView,
        >(CacheErrorView::BatchTimeout),
        state.after_refresh(
            state.refresh_result(Ok(peers), reports, batch_elapsed_ms),
            now,
        ).snapshot == state.snapshot,
        state.after_refresh(
            state.refresh_result(Ok(peers), reports, batch_elapsed_ms),
            now,
        ).cached() == state.cached(),
        !state.after_refresh(
            state.refresh_result(Ok(peers), reports, batch_elapsed_ms),
            now,
        ).refreshing,
{
}

/// A refresh that fails, for whatever reason, leaves the snapshot as it was.
pub proof fn lemma_failed_refresh_keeps_snapshot(
    state: CacheState,
    error: CacheErrorView,
    now: u64,
)
    ensures
        state.after_refresh(Err(error), now).snapshot == state.snapshot,
        state.after_refresh(Err(error), now).cached() == state.cached(),
{
}

/// A read while the snapshot is fresh is served from the snapshot and changes nothing:
/// it starts no refresh, and two such reads return the same masternodes.
pub proof fn lemma_fresh_read_is_served(state: CacheState, now: u64)
    requires
        state.snapshot is Some,
        now - state.snapshot->0.timestamp < state.timing.staleness_interval_ms,
    ensures
        state.read_step(now) == (ReadStepView::Serve { masternodes: state.snapshot->0.peers }),
        state.after_read(now) == state,
        !state.starts_refresh(CacheEvent::Read { now }),
{
}

/// A refresh that succeeds publishes what it found, stamped with the time it
/// completed, and every node of it has an outcome.
pub proof fn lemma_refresh_publishes(
    state: CacheState,
    peers: Seq<EvoMasternodeView>,
    reports: Seq<Option<ProbeReportView>>,
    batch_elapsed_ms: u64,
    now: u64,
)
    requires
        batch_elapsed_ms <= state.timing.batch_timeout_ms,
    ensures
        state.after_refresh(
            state.refresh_result(Ok(peers), reports, batch_elapsed_ms),
            now,
        ).snapshot == Some(
            SnapshotView {
                peers: probed(peers, reports, state.timing.per_peer_timeout_ms),
                timestamp: now,
            },
        ),
        all_settled(probed(peers, reports, state.timing.per_peer_timeout_ms)),
        !state.after_refresh(
            state.refresh_result(Ok(peers), reports, batch_elapsed_ms),
            now,
        ).refreshing,
{
}

/// While a refresh is running, no read and no tick starts another.
pub proof fn lemma_refreshing_stays(state: CacheState, events: Seq<CacheEvent>)
    requires
        state.refreshing,
        no_refresh_completes(events),
    ensures
        state.after_events(events).refreshing,
        state.after_events(events).snapshot == state.snapshot,
        state.refreshes_started(events) == 0,
    decreases events.len(),
{
    if events.len() > 0 {
        let front = events.drop_last();
        assert forall|i: int| 0 <= i < front.len() implies !(#[trigger] front[i] is Refreshed) by {
            assert(front[i] == events[i]);
        }
        lemma_refreshing_stays(state, front);
        assert(!(events[events.len() - 1] is Refreshed));
    }
}

/// Single flight: however many reads and ticks arrive before a refresh completes, they
/// start at most one refresh between them.
pub proof fn lemma_single_flight(state: CacheState, events: Seq<CacheEvent>)
    requires
        no_refresh_completes(events),
    ensures
        state.refreshes_started(events) <= 1,
        state.refreshes_started(events) == 1 ==> state.after_events(events).refreshing,
        state.after_events(events).snapshot == state.snapshot,
    decreases events.len(),
{
    if events.len() > 0 {
        let front = events.drop_last();
        assert forall|i: int| 0 <= i < front.len() implies !(#[trigger] front[i] is Refreshed) by {
            assert(front[i] == events[i]);
        }
        lemma_single_flight(state, front);
        assert(!(events[events.len() - 1] is Refreshed));
        let before = state.after_events(front);
        if state.refreshes_started(front) == 1 {
            assert(before.refreshing);
        }
    }
}

/// Any number of reads that find the snapshot stale, arriving while no refresh runs
/// and before one completes, start exactly one refresh: the first read runs it, every
/// other waits.
pub proof fn lemma_stale_reads_start_one_refresh(state: CacheState, reads: Seq<CacheEvent>)
    requires
        !state.refreshing,
        reads.len() >= 1,
        forall|i: int|
            0 <= i < reads.len() ==> (#[trigger] reads[i]) is Read && is_stale(
                state.snapshot,
                reads[i]->Read_now,
                state.timing.staleness_interval_ms,
            ),
    ensures
        state.refreshes_started(reads) == 1,
        state.read_step(reads[0]->Read_now) is Refresh,
        forall|i: int|
            1 <= i < reads.len() ==> state.after_events(reads.take(i)).read_step(
                (#[trigger] reads[i])->Read_now,
            ) is Wait,
    decreases reads.len(),
{
    assert(no_refresh_completes(reads));
    let front = reads.drop_last();
    let last = reads.last();
    assert(front =~= reads.take(reads.len() - 1));
    if reads.len() == 1 {
        assert(front.len() == 0);
        assert(state.after_events(front) == state);
        assert(state.refreshes_started(front) == 0);
        assert(last == reads[0]);
    } else {
        assert forall|i: int| 0 <= i < front.len() implies (#[trigger] front[i]) is Read
            && is_stale(state.snapshot, front[i]->Read_now, state.timing.staleness_interval_ms) by {
            assert(front[i] == reads[i]);
        }
        lemma_stale_reads_start_one_refresh(state, front);
        lemma_single_flight(state, front);
        assert(front[0] == reads[0]);
        let before = state.after_events(front);
        assert(before.refreshing);
        assert(before.snapshot == state.snapshot);
        lemma_timing_is_kept(state, front);
        assert forall|i: int| 1 <= i < reads.len() implies state.after_events(
            reads.take(i),
        ).read_step((#[trigger] reads[i])->Read_now) is Wait by {
            if i < reads.len() - 1 {
                assert(front.take(i) =~= reads.take(i));
                assert(front[i] == reads[i]);
            }
        }
    }
}

/// No event changes the timing of a cache, nor its configuration.
pub proof fn lemma_timing_is_kept(state: CacheState, events: Seq<CacheEvent>)
    ensures
        state.after_events(events).timing == state.timing,
        state.after_events(events).config == state.config,
    decreases events.len(),
{
    if events.len() > 0 {
        lemma_timing_is_kept(state, events.drop_last());
    }
}

/// The snapshot that readers see after some events was made when the cache's first
/// snapshot was, or when one of the refreshes among the events completed.
proof fn lemma_published_at_origin(state: CacheState, events: Seq<CacheEvent>)
    ensures
        state.after_events(events).published_at() == state.published_at() || exists|m: int|
            0 <= m < events.len() && (#[trigger] events[m]) is Refreshed
                && state.after_events(events).published_at() == events[m]->Refreshed_now,
    decreases events.len(),
{
    if events.len() > 0 {
        let front = events.drop_last();
        lemma_published_at_origin(state, front);
        let before = state.after_events(front);
        let after = state.after_events(events);
        if after.published_at() == before.published_at() {
            if before.published_at() != state.published_at() {
                let m = choose|m: int|
                    0 <= m < front.len() && (#[trigger] front[m]) is Refreshed
                        && before.published_at() == front[m]->Refreshed_now;
                assert(events[m] == front[m]);
            }
        } else {
            assert(events[events.len() - 1] is Refreshed);
            assert(after.published_at() == events[events.len() - 1]->Refreshed_now);
        }
    }
}

/// Monotonic visibility: where the clock never runs back, the snapshot that readers
/// see is never replaced by one made earlier, and once there is a snapshot there is
/// always one. So a reader who saw a snapshot made at some time never sees an older
/// one afterwards.
pub proof fn lemma_monotonic_visibility(state: CacheState, events: Seq<CacheEvent>, i: int, j: int)
    requires
        0 <= i <= j <= events.len(),
        completions_in_order(state.published_at(), events),
    ensures
        state.after_events(events.take(i)).published_at() <= state.after_events(
            events.take(j),
        ).published_at(),
    decreases j - i,
{
    if i < j {
        lemma_monotonic_visibility(state, events, i, j - 1);
        let front = events.take(j - 1);
        assert(events.take(j).drop_last() =~= front);
        assert(events.take(j).last() == events[j - 1]);
        let before = state.after_events(front);
        let after = state.after_events(events.take(j));
        assert(after == before.after_event(events[j - 1]));
        if events[j - 1] is Refreshed {
            lemma_published_at_origin(state, front);
            if before.published_at() != state.published_at() {
                let m = choose|m: int|
                    0 <= m < front.len() && (#[trigger] front[m]) is Refreshed
                        && before.published_at() == front[m]->Refreshed_now;
                assert(front[m] == events[m]);
            }
            assert(before.published_at() <= events[j - 1]->Refreshed_now);
        }
    }
}

} // verus!
