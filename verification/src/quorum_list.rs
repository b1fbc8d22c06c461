//! The list of quorums that the server serves: one entry for each quorum hash.

use vstd::prelude::*;
use vstd::std_specs::iter::IteratorSpec;

verus! {

/// A member of a quorum.
#[allow(non_snake_case)]
#[derive(Debug, PartialEq, Eq)]
pub struct QuorumMember {
    pub proTxHash: String,
    pub pubKeyOperator: String,
    pub valid: bool,
    pub isPublicKeyShare: bool,
}

pub struct QuorumMemberView {
    pub pro_tx_hash: Seq<char>,
    pub pub_key_operator: Seq<char>,
    pub valid: bool,
    pub is_public_key_share: bool,
}

impl View for QuorumMember {
    type V = QuorumMemberView;

    open spec fn view(&self) -> QuorumMemberView {
        QuorumMemberView {
            pro_tx_hash: self.proTxHash@,
            pub_key_operator: self.pubKeyOperator@,
            valid: self.valid,
            is_public_key_share: self.isPublicKeyShare,
        }
    }
}

impl DeepView for QuorumMember {
    type V = QuorumMemberView;

    open spec fn deep_view(&self) -> QuorumMemberView {
        self@
    }
}

impl Clone for QuorumMember {
    fn clone(&self) -> (copy: Self)
        ensures
            copy@ == self@,
    {
        QuorumMember {
            proTxHash: self.proTxHash.clone(),
            pubKeyOperator: self.pubKeyOperator.clone(),
            valid: self.valid,
            isPublicKeyShare: self.isPublicKeyShare,
        }
    }
}

/// A quorum: its hash, its public key, and what is known of its members.
#[derive(Debug, PartialEq, Eq)]
pub struct QuorumListEntry {
    pub quorum_hash: Vec<u8>,
    pub key: Vec<u8>,
    pub height: u32,
    pub members: Vec<QuorumMember>,
    pub threshold_signature: String,
    pub mining_members_count: u32,
    pub valid_members_count: u32,
}

pub struct QuorumListEntryView {
    pub quorum_hash: Seq<u8>,
    pub key: Seq<u8>,
    pub height: u32,
    pub members: Seq<QuorumMemberView>,
    pub threshold_signature: Seq<char>,
    pub mining_members_count: u32,
    pub valid_members_count: u32,
}

impl View for QuorumListEntry {
    type V = QuorumListEntryView;

    open spec fn view(&self) -> QuorumListEntryView {
        QuorumListEntryView {
            quorum_hash: self.quorum_hash@,
            key: self.key@,
            height: self.height,
            members: self.members.deep_view(),
            threshold_signature: self.threshold_signature@,
            mining_members_count: self.mining_members_count,
            valid_members_count: self.valid_members_count,
        }
    }
}

impl DeepView for QuorumListEntry {
    type V = QuorumListEntryView;

    open spec fn deep_view(&self) -> QuorumListEntryView {
        self@
    }
}

/// Whether two byte strings are the same.
pub fn bytes_eq(a: &[u8], b: &[u8]) -> (same: bool)
    ensures
        same == (a@ == b@),
{
    if a.len() != b.len() {
        return false;
    }
    let mut i: usize = 0;
    while i < a.len()
        invariant
            i <= a.len(),
            a.len() == b.len(),
            forall|j: int| 0 <= j < i ==> a@[j] == b@[j],
        decreases a.len() - i,
    {
        if a[i] != b[i] {
            return false;
        }
        i = i + 1;
    }
    assert(a@ =~= b@);
    true
}

/// A copy of a byte string.
pub fn copy_bytes(bytes: &Vec<u8>) -> (copy: Vec<u8>)
    ensures
        copy@ == bytes@,
{
    let mut copy: Vec<u8> = Vec::new();
    let mut i: usize = 0;
    while i < bytes.len()
        invariant
            i <= bytes.len(),
            copy@ == bytes@.take(i as int),
        decreases bytes.len() - i,
    {
        copy.push(bytes[i]);
        assert(bytes@.take(i + 1) =~= bytes@.take(i as int).push(bytes@[i as int]));
        i = i + 1;
    }
    assert(bytes@.take(i as int) =~= bytes@);
    copy
}

/// A copy of a list of members.
pub fn copy_members(members: &Vec<QuorumMember>) -> (copy: Vec<QuorumMember>)
    ensures
        copy.deep_view() == members.deep_view(),
{
    let mut copy: Vec<QuorumMember> = Vec::new();
    let mut i: usize = 0;
    while i < members.len()
        invariant
            i <= members.len(),
            copy.len() == i,
            forall|j: int| 0 <= j < i ==> copy[j]@ == members[j]@,
        decreases members.len() - i,
    {
        copy.push(members[i].clone());
        i = i + 1;
    }
    assert(copy.deep_view() =~= members.deep_view());
    copy
}

impl Clone for QuorumListEntry {
    fn clone(&self) -> (copy: Self)
        ensures
            copy@ == self@,
    {
        QuorumListEntry {
            quorum_hash: copy_bytes(&self.quorum_hash),
            key: copy_bytes(&self.key),
            height: self.height,
            members: copy_members(&self.members),
            threshold_signature: self.threshold_signature.clone(),
            mining_members_count: self.mining_members_count,
            valid_members_count: self.valid_members_count,
        }
    }
}

impl QuorumListEntry {
    /// An entry that holds a quorum's hash and key, and nothing else yet.
    pub fn new(quorum_hash: Vec<u8>, key: Vec<u8>) -> (entry: Self)
        ensures
            entry@ == (QuorumListEntryView {
                quorum_hash: quorum_hash@,
                key: key@,
                height: 0,
                members: Seq::empty(),
                threshold_signature: Seq::empty(),
                mining_members_count: 0,
                valid_members_count: 0,
            }),
    {
        let entry = QuorumListEntry {
            quorum_hash,
            key,
            height: 0,
            members: Vec::new(),
            threshold_signature: String::new(),
            mining_members_count: 0,
            valid_members_count: 0,
        };
        assert(entry.members.deep_view() =~= Seq::empty());
        entry
    }

    /// An entry that holds all that is known of a quorum.
    pub fn new_extended(
        quorum_hash: Vec<u8>,
        key: Vec<u8>,
        height: u32,
        members: Vec<QuorumMember>,
        threshold_signature: String,
        mining_members_count: u32,
        valid_members_count: u32,
    ) -> (entry: Self)
        ensures
            entry@ == (QuorumListEntryView {
                quorum_hash: quorum_hash@,
                key: key@,
                height,
                members: members.deep_view(),
                threshold_signature: threshold_signature@,
                mining_members_count,
                valid_members_count,
            }),
    {
        QuorumListEntry {
            quorum_hash,
            key,
            height,
            members,
            threshold_signature,
            mining_members_count,
            valid_members_count,
        }
    }
}

/// The position of the first entry with the given hash, and the length of the list
/// where there is none.
pub open spec fn first_position(entries: Seq<QuorumListEntryView>, quorum_hash: Seq<u8>) -> int
    decreases entries.len(),
{
    if entries.len() == 0 {
        0
    } else if entries[0].quorum_hash == quorum_hash {
        0
    } else {
        1 + first_position(entries.drop_first(), quorum_hash)
    }
}

/// The position of the last entry with the given hash, and -1 where there is none.
pub open spec fn last_position(entries: Seq<QuorumListEntryView>, quorum_hash: Seq<u8>) -> int
    decreases entries.len(),
{
    if entries.len() == 0 {
        -1
    } else if entries.last().quorum_hash == quorum_hash {
        entries.len() - 1
    } else {
        last_position(entries.drop_last(), quorum_hash)
    }
}

/// Whether an entry with the given hash is in the list.
pub open spec fn contains_hash(entries: Seq<QuorumListEntryView>, quorum_hash: Seq<u8>) -> bool {
    first_position(entries, quorum_hash) < entries.len()
}

/// `first_position` is in range and points at the first entry with the hash; it
/// reaches the length exactly where no entry has the hash.
pub proof fn lemma_first_position(entries: Seq<QuorumListEntryView>, quorum_hash: Seq<u8>)
    ensures
        0 <= first_position(entries, quorum_hash) <= entries.len(),
        forall|j: int|
            0 <= j < first_position(entries, quorum_hash) ==> (#[trigger] entries[j]).quorum_hash
                != quorum_hash,
        contains_hash(entries, quorum_hash) ==> entries[first_position(
            entries,
            quorum_hash,
        )].quorum_hash == quorum_hash,
        contains_hash(entries, quorum_hash) <==> exists|j: int|
            0 <= j < entries.len() && (#[trigger] entries[j]).quorum_hash == quorum_hash,
    decreases entries.len(),
{
    if entries.len() > 0 && entries[0].quorum_hash != quorum_hash {
        let rest = entries.drop_first();
        lemma_first_position(rest, quorum_hash);
        let at = first_position(entries, quorum_hash);
        assert forall|j: int| 0 <= j < at implies (#[trigger] entries[j]).quorum_hash
            != quorum_hash by {
            if j > 0 {
                assert(entries[j] == rest[j - 1]);
            }
        }
        if at < entries.len() {
            assert(entries[at] == rest[at - 1]);
        }
        if exists|j: int|
            0 <= j < entries.len() && (#[trigger] entries[j]).quorum_hash == quorum_hash {
            let j = choose|j: int|
                0 <= j < entries.len() && (#[trigger] entries[j]).quorum_hash == quorum_hash;
            assert(rest[j - 1] == entries[j]);
        }
    } else if entries.len() > 0 {
        assert(entries[0].quorum_hash == quorum_hash);
    }
}

/// `last_position` is in range and points at the last entry with the hash; it is -1
/// exactly where no entry has the hash.
pub proof fn lemma_last_position(entries: Seq<QuorumListEntryView>, quorum_hash: Seq<u8>)
    ensures
        -1 <= last_position(entries, quorum_hash) < entries.len(),
        forall|j: int|
            last_position(entries, quorum_hash) < j < entries.len() ==> (
            #[trigger] entries[j]).quorum_hash != quorum_hash,
        last_position(entries, quorum_hash) >= 0 ==> entries[last_position(
            entries,
            quorum_hash,
        )].quorum_hash == quorum_hash,
        last_position(entries, quorum_hash) >= 0 <==> contains_hash(entries, quorum_hash),
    decreases entries.len(),
{
    lemma_first_position(entries, quorum_hash);
    if entries.len() > 0 && entries.last().quorum_hash != quorum_hash {
        let front = entries.drop_last();
        lemma_last_position(front, quorum_hash);
        lemma_first_position(front, quorum_hash);
        let at = last_position(entries, quorum_hash);
        assert forall|j: int| at < j < entries.len() implies (#[trigger] entries[j]).quorum_hash
            != quorum_hash by {
            if j < entries.len() - 1 {
                assert(entries[j] == front[j]);
            }
        }
        if at >= 0 {
            assert(entries[at] == front[at]);
        }
        if contains_hash(entries, quorum_hash) {
            let j = choose|j: int|
                0 <= j < entries.len() && (#[trigger] entries[j]).quorum_hash == quorum_hash;
            assert(front[j] == entries[j]);
        }
    } else if entries.len() > 0 {
        assert(entries[entries.len() - 1].quorum_hash == quorum_hash);
    }
}

/// Whether no two entries have the same quorum hash.
pub open spec fn unique_hashes(entries: Seq<QuorumListEntryView>) -> bool {
    forall|a: int, b: int|
        0 <= a < b < entries.len() ==> (#[trigger] entries[a]).quorum_hash != (
        #[trigger] entries[b]).quorum_hash
}

/// What `add_entry` makes of a list.
pub open spec fn with_entry(
    entries: Seq<QuorumListEntryView>,
    entry: QuorumListEntryView,
) -> Seq<QuorumListEntryView> {
    if contains_hash(entries, entry.quorum_hash) {
        entries
    } else {
        entries.push(entry)
    }
}

/// A list that holds each quorum hash once still does after an entry is added, and
/// holds the added hash.
pub proof fn lemma_add_entry_keeps_hashes_unique(
    entries: Seq<QuorumListEntryView>,
    entry: QuorumListEntryView,
)
    requires
        unique_hashes(entries),
    ensures
        unique_hashes(with_entry(entries, entry)),
        contains_hash(with_entry(entries, entry), entry.quorum_hash),
{
    lemma_first_position(entries, entry.quorum_hash);
    let after = with_entry(entries, entry);
    if !contains_hash(entries, entry.quorum_hash) {
        assert forall|a: int, b: int| 0 <= a < b < after.len() implies (#[trigger] after[a]).quorum_hash
            != (#[trigger] after[b]).quorum_hash by {
            assert(after[a] == entries[a]);
            if b < entries.len() {
                assert(after[b] == entries[b]);
            }
        }
        assert(after[entries.len() as int].quorum_hash == entry.quorum_hash);
    }
    lemma_first_position(after, entry.quorum_hash);
}

/// Removing an entry from a list that holds each quorum hash once removes the hash
/// from the list.
pub proof fn lemma_remove_entry_removes_hash(
    entries: Seq<QuorumListEntryView>,
    quorum_hash: Seq<u8>,
)
    requires
        unique_hashes(entries),
        contains_hash(entries, quorum_hash),
    ensures
        !contains_hash(entries.remove(first_position(entries, quorum_hash)), quorum_hash),
        unique_hashes(entries.remove(first_position(entries, quorum_hash))),
{
    lemma_first_position(entries, quorum_hash);
    let at = first_position(entries, quorum_hash);
    let after = entries.remove(at);
    assert forall|j: int| 0 <= j < after.len() implies (#[trigger] after[j]).quorum_hash
        != quorum_hash by {
        if j < at {
            assert(after[j] == entries[j]);
        } else {
            assert(after[j] == entries[j + 1]);
            assert(entries[at].quorum_hash != entries[j + 1].quorum_hash);
        }
    }
    lemma_first_position(after, quorum_hash);
    assert forall|a: int, b: int| 0 <= a < b < after.len() implies (#[trigger] after[a]).quorum_hash
        != (#[trigger] after[b]).quorum_hash by {
        let a0 = if a < at { a } else { a + 1 };
        let b0 = if b < at { b } else { b + 1 };
        assert(after[a] == entries[a0]);
        assert(after[b] == entries[b0]);
    }
}

/// The quorums known to the server, in the order they were added.
#[derive(Debug, PartialEq, Eq)]
pub struct QuorumList {
    pub list: Vec<QuorumListEntry>,
}

impl View for QuorumList {
    type V = Seq<QuorumListEntryView>;

    open spec fn view(&self) -> Seq<QuorumListEntryView> {
        self.list.deep_view()
    }
}

impl QuorumList {
    /// An empty list.
    pub fn new() -> (quorums: Self)
        ensures
            quorums@ == Seq::<QuorumListEntryView>::empty(),
    {
        let quorums = QuorumList { list: Vec::new() };
        assert(quorums@ =~= Seq::empty());
        quorums
    }

    /// The position of the first entry with the given hash, if there is one.
    fn position(&self, quorum_hash: &[u8]) -> (at: Option<usize>)
        ensures
            match at {
                Some(p) => p == first_position(self@, quorum_hash@) && p < self.list.len(),
                None => !contains_hash(self@, quorum_hash@),
            },
    {
        let mut i: usize = 0;
        while i < self.list.len()
            invariant
                i <= self.list.len(),
                forall|j: int| 0 <= j < i ==> (#[trigger] self@[j]).quorum_hash != quorum_hash@,
            decreases self.list.len() - i,
        {
            if bytes_eq(self.list[i].quorum_hash.as_slice(), quorum_hash) {
                proof {
                    lemma_first_position(self@, quorum_hash@);
                    assert(self@[i as int].quorum_hash == quorum_hash@);
                }
                return Some(i);
            }
            i = i + 1;
        }
        proof {
            lemma_first_position(self@, quorum_hash@);
        }
        None
    }

    /// Adds an entry, unless the list already holds one with the same quorum hash.
    pub fn add_entry(&mut self, entry: QuorumListEntry)
        ensures
            final(self)@ == with_entry(old(self)@, entry@),
    {
        if !self.contains_quorum(entry.quorum_hash.as_slice()) {
            let ghost before = self@;
            self.list.push(entry);
            assert(self@ =~= before.push(entry@));
        }
    }

    /// Removes the first entry with the given quorum hash, and says whether there was
    /// one.
    pub fn remove_entry(&mut self, quorum_hash: &[u8]) -> (removed: bool)
        ensures
            removed == contains_hash(old(self)@, quorum_hash@),
            final(self)@ == if removed {
                old(self)@.remove(first_position(old(self)@, quorum_hash@))
            } else {
                old(self)@
            },
    {
        match self.position(quorum_hash) {
            Some(at) => {
                let ghost before = self@;
                self.list.remove(at);
                assert(self@ =~= before.remove(at as int));
                true
            },
            None => false,
        }
    }

    /// Whether the list holds an entry with the given quorum hash.
    pub fn contains_quorum(&self, quorum_hash: &[u8]) -> (found: bool)
        ensures
            found == contains_hash(self@, quorum_hash@),
    {
        self.position(quorum_hash).is_some()
    }

    /// The first entry with the given quorum hash, if there is one.
    pub fn get_entry(&self, quorum_hash: &[u8]) -> (entry: Option<&QuorumListEntry>)
        ensures
            match entry {
                Some(e) => contains_hash(self@, quorum_hash@) && e@ == self@[first_position(
                    self@,
                    quorum_hash@,
                )],
                None => !contains_hash(self@, quorum_hash@),
            },
    {
        match self.position(quorum_hash) {
            Some(at) => Some(&self.list[at]),
            None => None,
        }
    }

    /// The number of entries.
    pub fn len(&self) -> (len: usize)
        ensures
            len == self@.len(),
    {
        self.list.len()
    }

    /// Whether the list holds no entry.
    pub fn is_empty(&self) -> (empty: bool)
        ensures
            empty == (self@.len() == 0),
    {
        self.list.is_empty()
    }

    /// Removes every entry.
    pub fn clear(&mut self)
        ensures
            final(self)@ == Seq::<QuorumListEntryView>::empty(),
    {
        self.list.clear();
        assert(self@ =~= Seq::empty());
    }

    /// The entries, in the order they were added.
    pub fn iter(&self) -> (entries: core::slice::Iter<'_, QuorumListEntry>)
        ensures
            entries.remaining() == self.list@.as_ref(),
    {
        broadcast use vstd::std_specs::slice::axiom_spec_slice_iter;

        self.list.as_slice().iter()
    }

    /// The public key of every quorum in the list, by quorum hash: each hash once, with
    /// the key of the last entry that has it. The hashes stand in the order in which
    /// the list first holds them.
    pub fn to_hashmap(&self) -> (keys: Vec<(Vec<u8>, Vec<u8>)>)
        ensures
            maps_hashes_to_keys(keys@, self@),
    {
        let ghost all = self@;
        let mut keys: Vec<(Vec<u8>, Vec<u8>)> = Vec::new();
        let mut i: usize = 0;
        while i < self.list.len()
            invariant
                i <= self.list.len(),
                all == self@,
                maps_hashes_to_keys(keys@, all.take(i as int)),
            decreases self.list.len() - i,
        {
            let entry = &self.list[i];
            let ghost seen = all.take(i as int);
            let ghost next = all.take(i + 1);
            let ghost before = keys@;
            proof {
                assert(next =~= seen.push(entry@));
                assert forall|h: Seq<u8>| #[trigger] positions_step(seen, next, h) by {
                    lemma_positions_step(seen, entry@, h);
                }
            }
            let mut at: usize = 0;
            while at < keys.len() && !bytes_eq(keys[at].0.as_slice(), entry.quorum_hash.as_slice())
                invariant
                    at <= keys.len(),
                    forall|k: int| 0 <= k < at ==> (#[trigger] keys[k]).0@ != entry@.quorum_hash,
                decreases keys.len() - at,
            {
                at = at + 1;
            }
            let pair = (copy_bytes(&entry.quorum_hash), copy_bytes(&entry.key));
            if at < keys.len() {
                keys.set(at, pair);
                proof {
                    assert forall|k: int| 0 <= k < keys.len() implies (#[trigger] keys[k]).0@
                        == before[k].0@ by {}
                    assert forall|k: int| 0 <= k < keys.len() implies listed_key(
                        #[trigger] keys[k],
                        next,
                    ) by {
                        assert(positions_step(seen, next, before[k].0@));
                        assert(listed_key(before[k], seen));
                        if k != at {
                            assert(keys[k] == before[k]);
                            assert(first_position(seen, before[k].0@) != first_position(
                                seen,
                                before[at as int].0@,
                            ));
                            assert(before[k].0@ != entry@.quorum_hash);
                            lemma_last_position(seen, before[k].0@);
                        } else {
                            assert(keys[k] == pair);
                            assert(next[i as int] == entry@);
                        }
                    }
                    assert forall|h: Seq<u8>| contains_hash(next, h) implies exists|k: int|
                        0 <= k < keys.len() && (#[trigger] keys[k]).0@ == h by {
                        assert(positions_step(seen, next, h));
                        if h == entry@.quorum_hash {
                            assert(keys[at as int].0@ == h);
                        } else {
                            let k = choose|k: int|
                                0 <= k < before.len() && (#[trigger] before[k]).0@ == h;
                            assert(keys[k].0@ == h);
                        }
                    }
                    assert forall|a: int, b: int| 0 <= a < b < keys.len() implies first_position(
                        next,
                        (#[trigger] keys[a]).0@,
                    ) < first_position(next, (#[trigger] keys[b]).0@) by {
                        assert(positions_step(seen, next, before[a].0@));
                        assert(positions_step(seen, next, before[b].0@));
                        assert(listed_key(before[a], seen));
                        assert(listed_key(before[b], seen));
                    }
                }
            } else {
                keys.push(pair);
                proof {
                    assert forall|k: int| 0 <= k < before.len() implies #[trigger] keys[k]
                        == before[k] by {}
                    assert(positions_step(seen, next, entry@.quorum_hash));
                    assert(!contains_hash(seen, entry@.quorum_hash)) by {
                        if contains_hash(seen, entry@.quorum_hash) {
                            let k = choose|k: int|
                                0 <= k < before.len() && (#[trigger] before[k]).0@
                                    == entry@.quorum_hash;
                            assert(false);
                        }
                    }
                    assert forall|k: int| 0 <= k < keys.len() implies listed_key(
                        #[trigger] keys[k],
                        next,
                    ) by {
                        if k < before.len() {
                            assert(positions_step(seen, next, before[k].0@));
                            assert(listed_key(before[k], seen));
                            assert(keys[k] == before[k]);
                            assert(before[k].0@ != entry@.quorum_hash);
                            lemma_last_position(seen, before[k].0@);
                        } else {
                            assert(keys[k] == pair);
                            assert(next[i as int] == entry@);
                        }
                    }
                    assert forall|h: Seq<u8>| contains_hash(next, h) implies exists|k: int|
                        0 <= k < keys.len() && (#[trigger] keys[k]).0@ == h by {
                        assert(positions_step(seen, next, h));
                        if h == entry@.quorum_hash {
                            assert(keys[before.len() as int].0@ == h);
                        } else {
                            let k = choose|k: int|
                                0 <= k < before.len() && (#[trigger] before[k]).0@ == h;
                            assert(keys[k] == before[k]);
                        }
                    }
                    assert forall|a: int, b: int| 0 <= a < b < keys.len() implies first_position(
                        next,
                        (#[trigger] keys[a]).0@,
                    ) < first_position(next, (#[trigger] keys[b]).0@) by {
                        assert(positions_step(seen, next, before[a].0@));
                        assert(listed_key(before[a], seen));
                        lemma_first_position(seen, before[a].0@);
                        if b < before.len() {
                            assert(positions_step(seen, next, before[b].0@));
                            assert(listed_key(before[b], seen));
                        }
                    }
                }
            }
            i = i + 1;
        }
        assert(all.take(i as int) =~= all);
        keys
    }
}

/// Whether a pair of hash and key gives the key that `entries` holds last for the hash.
pub open spec fn listed_key(pair: (Vec<u8>, Vec<u8>), entries: Seq<QuorumListEntryView>) -> bool {
    &&& contains_hash(entries, pair.0@)
    &&& pair.1@ == entries[last_position(entries, pair.0@)].key
}

/// Whether `keys` gives for every quorum hash in `entries`, once, the key of the last
/// entry that has the hash, names no other hash, and has the hashes in the order in
/// which `entries` first holds them.
pub open spec fn maps_hashes_to_keys(
    keys: Seq<(Vec<u8>, Vec<u8>)>,
    entries: Seq<QuorumListEntryView>,
) -> bool {
    &&& forall|k: int| 0 <= k < keys.len() ==> listed_key(#[trigger] keys[k], entries)
    &&& forall|h: Seq<u8>|
        contains_hash(entries, h) ==> exists|k: int|
            0 <= k < keys.len() && (#[trigger] keys[k]).0@ == h
    &&& forall|a: int, b: int|
        0 <= a < b < keys.len() ==> first_position(entries, (#[trigger] keys[a]).0@)
            < first_position(entries, (#[trigger] keys[b]).0@)
}

/// How the positions of a hash in `next` follow from those in `seen`, where `next` is
/// `seen` with one more entry.
pub open spec fn positions_step(
    seen: Seq<QuorumListEntryView>,
    next: Seq<QuorumListEntryView>,
    quorum_hash: Seq<u8>,
) -> bool {
    let added = next.last().quorum_hash == quorum_hash;
    &&& contains_hash(next, quorum_hash) == (added || contains_hash(seen, quorum_hash))
    &&& last_position(next, quorum_hash) == if added {
        seen.len() as int
    } else {
        last_position(seen, quorum_hash)
    }
    &&& first_position(next, quorum_hash) == if contains_hash(seen, quorum_hash) {
        first_position(seen, quorum_hash)
    } else if added {
        seen.len() as int
    } else {
        seen.len() as int + 1
    }
    &&& last_position(seen, quorum_hash) >= 0 ==> next[last_position(seen, quorum_hash)]
        == seen[last_position(seen, quorum_hash)]
}

/// A position before which no entry has the hash, and which holds an entry with the
/// hash or is the length, is the first position.
pub proof fn lemma_first_position_is(
    entries: Seq<QuorumListEntryView>,
    quorum_hash: Seq<u8>,
    at: int,
)
    requires
        0 <= at <= entries.len(),
        forall|j: int| 0 <= j < at ==> (#[trigger] entries[j]).quorum_hash != quorum_hash,
        at < entries.len() ==> entries[at].quorum_hash == quorum_hash,
    ensures
        first_position(entries, quorum_hash) == at,
{
    lemma_first_position(entries, quorum_hash);
    let found = first_position(entries, quorum_hash);
    if found < at {
        assert(entries[found].quorum_hash != quorum_hash);
    }
    if at < found {
        assert(entries[at].quorum_hash != quorum_hash);
    }
}

/// Adding one entry at the end moves the positions of a hash as `positions_step` says.
pub proof fn lemma_positions_step(
    seen: Seq<QuorumListEntryView>,
    entry: QuorumListEntryView,
    quorum_hash: Seq<u8>,
)
    ensures
        positions_step(seen, seen.push(entry), quorum_hash),
{
    let next = seen.push(entry);
    assert(next.drop_last() =~= seen);
    lemma_first_position(seen, quorum_hash);
    lemma_last_position(seen, quorum_hash);
    lemma_last_position(next, quorum_hash);
    let first = first_position(seen, quorum_hash);
    if contains_hash(seen, quorum_hash) {
        assert forall|j: int| 0 <= j < first implies (#[trigger] next[j]).quorum_hash
            != quorum_hash by {
            assert(next[j] == seen[j]);
        }
        assert(next[first] == seen[first]);
        lemma_first_position_is(next, quorum_hash, first);
    } else {
        assert forall|j: int| 0 <= j < seen.len() implies (#[trigger] next[j]).quorum_hash
            != quorum_hash by {
            assert(next[j] == seen[j]);
            assert(seen[j].quorum_hash != quorum_hash);
        }
        if entry.quorum_hash == quorum_hash {
            lemma_first_position_is(next, quorum_hash, seen.len() as int);
        } else {
            lemma_first_position_is(next, quorum_hash, seen.len() as int + 1);
        }
    }
    lemma_first_position(next, quorum_hash);
}

impl Default for QuorumList {
    fn default() -> (quorums: Self)
        ensures
            quorums@ == Seq::<QuorumListEntryView>::empty(),
    {
        QuorumList::new()
    }
}

impl From<Vec<QuorumListEntry>> for QuorumList {
    fn from(list: Vec<QuorumListEntry>) -> (quorums: Self) {
        QuorumList { list }
    }
}

impl vstd::std_specs::convert::FromSpecImpl<Vec<QuorumListEntry>> for QuorumList {
    open spec fn obeys_from_spec() -> bool {
        true
    }

    open spec fn from_spec(list: Vec<QuorumListEntry>) -> QuorumList {
        QuorumList { list }
    }
}

} // verus!
