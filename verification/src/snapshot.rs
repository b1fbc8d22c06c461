//! Snapshots of the masternode view, and the store that holds the one last published.

use crate::masternode::{
    all_settled, copy_nodes, nodes_settled, EvoMasternodeList, EvoMasternodeView,
};
use vstd::prelude::*;

verus! {

/// The masternodes as one refresh found them, with the time it completed. A snapshot
/// is never changed once made, and holds no node that still awaits its probe.
#[derive(Debug, PartialEq, Eq)]
pub struct Snapshot {
    peers: EvoMasternodeList,
    timestamp: u64,
}

pub struct SnapshotView {
    pub peers: Seq<EvoMasternodeView>,
    pub timestamp: u64,
}

impl View for Snapshot {
    type V = SnapshotView;

    closed spec fn view(&self) -> SnapshotView {
        SnapshotView { peers: self.peers.deep_view(), timestamp: self.timestamp }
    }
}

impl DeepView for Snapshot {
    type V = SnapshotView;

    open spec fn deep_view(&self) -> SnapshotView {
        self@
    }
}

impl Snapshot {
    #[verifier::type_invariant]
    spec fn settled(&self) -> bool {
        all_settled(self.peers.deep_view())
    }

    /// Makes a snapshot of nodes that are known to have their outcomes.
    pub(crate) fn seal(peers: EvoMasternodeList, timestamp: u64) -> (snapshot: Snapshot)
        requires
            all_settled(peers.deep_view()),
        ensures
            snapshot@ == (SnapshotView { peers: peers.deep_view(), timestamp }),
    {
        Snapshot { peers, timestamp }
    }

    /// Makes a snapshot, unless a node still awaits its probe.
    pub fn new(peers: EvoMasternodeList, timestamp: u64) -> (snapshot: Option<Snapshot>)
        ensures
            snapshot.deep_view() == if all_settled(peers.deep_view()) {
                Some(SnapshotView { peers: peers.deep_view(), timestamp })
            } else {
                None
            },
    {
        if nodes_settled(&peers) {
            Some(Snapshot::seal(peers, timestamp))
        } else {
            None
        }
    }

    /// The masternodes of the snapshot, in order. Each has an outcome.
    pub fn peers(&self) -> (peers: &EvoMasternodeList)
        ensures
            peers.deep_view() == self@.peers,
            all_settled(self@.peers),
    {
        proof {
            use_type_invariant(self);
        }
        &self.peers
    }

    /// When the refresh that made the snapshot completed.
    pub fn timestamp(&self) -> (timestamp: u64)
        ensures
            timestamp == self@.timestamp,
    {
        self.timestamp
    }
}

impl Clone for Snapshot {
    fn clone(&self) -> (copy: Self)
        ensures
            copy@ == self@,
    {
        proof {
            use_type_invariant(self);
        }
        Snapshot { peers: copy_nodes(&self.peers), timestamp: self.timestamp }
    }
}

/// Holds the snapshot last published. Reading hands out a copy and never waits for the
/// network; publishing puts a snapshot in the place of the one before.
#[derive(Debug)]
pub struct SnapshotStore {
    current: Option<Snapshot>,
}

impl View for SnapshotStore {
    type V = Option<SnapshotView>;

    closed spec fn view(&self) -> Option<SnapshotView> {
        self.current.deep_view()
    }
}

impl SnapshotStore {
    /// A store in which nothing has been published.
    pub fn new() -> (store: SnapshotStore)
        ensures
            store@ is None,
    {
        SnapshotStore { current: None }
    }

    /// A copy of the snapshot last published, if there is one.
    pub fn read(&self) -> (snapshot: Option<Snapshot>)
        ensures
            snapshot.deep_view() == self@,
            self@ matches Some(s) ==> all_settled(s.peers),
    {
        match &self.current {
            Some(s) => {
                proof {
                    use_type_invariant(s);
                }
                Some(s.clone())
            },
            None => None,
        }
    }

    /// The snapshot last published, if there is one, without copying it.
    pub(crate) fn peek(&self) -> (snapshot: Option<&Snapshot>)
        ensures
            snapshot.deep_view() == self@,
    {
        self.current.as_ref()
    }

    /// Puts `snapshot` in the place of the one held: every read from now on sees it.
    pub fn publish(&mut self, snapshot: Snapshot)
        ensures
            final(self)@ == Some(snapshot@),
    {
        self.current = Some(snapshot);
    }

    /// A copy of the masternodes of the snapshot last published, if there is one.
    pub fn masternodes(&self) -> (peers: Option<EvoMasternodeList>)
        ensures
            peers.deep_view() == match self@ {
                Some(s) => Some(s.peers),
                None => None,
            },
            self@ matches Some(s) ==> all_settled(s.peers),
    {
        match &self.current {
            Some(s) => Some(copy_nodes(s.peers())),
            None => None,
        }
    }

    /// When the snapshot last published was made, if there is one.
    pub fn timestamp(&self) -> (timestamp: Option<u64>)
        ensures
            timestamp == match self@ {
                Some(s) => Some(s.timestamp),
                None => None,
            },
    {
        match &self.current {
            Some(s) => Some(s.timestamp()),
            None => None,
        }
    }

    /// Whether nothing has been published yet.
    pub fn is_empty(&self) -> (empty: bool)
        ensures
            empty == (self@ is None),
    {
        self.current.is_none()
    }
}

} // verus!
