//! The bookkeeping of blob synchronisation: which peers a node knows, which blobs wait to
//! be fetched from them, and which are being fetched.

use crate::p2p_config::P2PConfig;
use std::collections::{HashSet, VecDeque};
use vstd::prelude::*;

verus! {

/// The peer table that a list of `(peer id, address)` entries describes: each entry
/// registers its address under its id, a later entry replacing an earlier one.
pub open spec fn peer_table(entries: Seq<(String, String)>) -> Map<Seq<char>, Seq<char>>
    decreases entries.len(),
{
    if entries.len() == 0 {
        Map::empty()
    } else {
        peer_table(entries.drop_last()).insert(entries.last().0@, entries.last().1@)
    }
}

/// No two entries share a peer id.
pub open spec fn distinct_ids(entries: Seq<(String, String)>) -> bool {
    forall|i: int, j: int|
        0 <= i < j < entries.len() ==> (#[trigger] entries[i]).0@ != (#[trigger] entries[j]).0@
}

/// Queueing a blob: a blob already being fetched is left alone; any other joins the end of
/// the queue and is marked as being fetched.
pub open spec fn queue_step(
    queued: Seq<(u128, String)>,
    in_progress: Set<u128>,
    blob_id: u128,
    hash: String,
) -> (Seq<(u128, String)>, Set<u128>) {
    if in_progress.contains(blob_id) {
        (queued, in_progress)
    } else {
        (queued.push((blob_id, hash)), in_progress.insert(blob_id))
    }
}

/// The queue holds each blob at most once, and every queued blob is marked as being
/// fetched.
pub open spec fn queue_consistent(queued: Seq<(u128, String)>, in_progress: Set<u128>) -> bool {
    &&& forall|i: int, j: int|
        0 <= i < j < queued.len() ==> (#[trigger] queued[i]).0 != (#[trigger] queued[j]).0
    &&& forall|i: int| 0 <= i < queued.len() ==> in_progress.contains((#[trigger] queued[i]).0)
}

/// How many blobs one round takes from a queue of `queued` blobs: as many as are queued,
/// but no more than `max_concurrent` at once.
pub open spec fn batch_size(max_concurrent: usize, queued: nat) -> nat {
    if max_concurrent < queued {
        max_concurrent as nat
    } else {
        queued
    }
}

/// The peers a node knows, from id to address. No id is registered twice.
pub struct PeerTable {
    entries: Vec<(String, String)>,
}

impl View for PeerTable {
    type V = Map<Seq<char>, Seq<char>>;

    closed spec fn view(&self) -> Map<Seq<char>, Seq<char>> {
        peer_table(self.entries@)
    }
}

impl PeerTable {
    #[verifier::type_invariant]
    spec fn ids_distinct(&self) -> bool {
        distinct_ids(self.entries@)
    }

    /// A table with no peers.
    pub fn new() -> (table: Self)
        ensures
            table@ == Map::<Seq<char>, Seq<char>>::empty(),
    {
        PeerTable { entries: Vec::new() }
    }

    /// Registers `peer_url` as the address of the peer `peer_id`, replacing any address it
    /// had.
    pub fn insert(&mut self, peer_id: String, peer_url: String)
        ensures
            final(self)@ == old(self)@.insert(peer_id@, peer_url@),
    {
        proof {
            use_type_invariant(&*self);
        }
        let mut entries: Vec<(String, String)> = Vec::new();
        std::mem::swap(&mut entries, &mut self.entries);
        let ghost before = entries@;
        let mut i: usize = 0;
        while i < entries.len()
            invariant
                entries@ == before,
                distinct_ids(before),
                peer_table(before) == old(self)@,
                i <= before.len(),
                forall|j: int| 0 <= j < i ==> (#[trigger] before[j]).0@ != peer_id@,
            decreases before.len() - i,
        {
            if entries[i].0 == peer_id {
                proof {
                    lemma_replace_entry(before, i as int, (peer_id, peer_url));
                }
                entries.set(i, (peer_id, peer_url));
                self.entries = entries;
                return;
            }
            i = i + 1;
        }
        entries.push((peer_id, peer_url));
        assert(entries@.drop_last() =~= before);
        assert(distinct_ids(entries@)) by {
            assert forall|a: int, b: int| 0 <= a < b < entries@.len() implies (
            #[trigger] entries@[a]).0@ != (#[trigger] entries@[b]).0@ by {
                if b < before.len() {
                    assert(entries@[a] == before[a] && entries@[b] == before[b]);
                } else {
                    assert(entries@[a] == before[a]);
                }
            }
        }
        self.entries = entries;
    }

    /// The address of the peer `peer_id`, if it is known.
    pub fn get(&self, peer_id: &String) -> (url: Option<String>)
        ensures
            url is Some <==> self@.contains_key(peer_id@),
            url matches Some(u) ==> u@ == self@[peer_id@],
    {
        proof {
            use_type_invariant(self);
            lemma_table_lookup(self.entries@);
        }
        let mut i: usize = 0;
        while i < self.entries.len()
            invariant
                i <= self.entries@.len(),
                forall|j: int| 0 <= j < i ==> (#[trigger] self.entries@[j]).0@ != peer_id@,
                forall|j: int|
                    0 <= j < self.entries@.len() ==> self@[(#[trigger] self.entries@[j]).0@]
                        == self.entries@[j].1@,
                forall|k: Seq<char>|
                    #[trigger] self@.contains_key(k) <==> exists|j: int|
                        0 <= j < self.entries@.len() && (#[trigger] self.entries@[j]).0@ == k,
            decreases self.entries@.len() - i,
        {
            if self.entries[i].0 == *peer_id {
                return Some(self.entries[i].1.clone());
            }
            i = i + 1;
        }
        None
    }

    /// The ids of the known peers, each once.
    pub fn ids(&self) -> (ids: Vec<String>)
        ensures
            forall|i: int| 0 <= i < ids@.len() ==> self@.contains_key(#[trigger] ids@[i]@),
            forall|k: Seq<char>|
                #[trigger] self@.contains_key(k) ==> exists|i: int|
                    0 <= i < ids@.len() && (#[trigger] ids@[i])@ == k,
            forall|i: int, j: int|
                0 <= i < j < ids@.len() ==> (#[trigger] ids@[i])@ != (#[trigger] ids@[j])@,
    {
        proof {
            use_type_invariant(self);
            lemma_table_lookup(self.entries@);
        }
        let mut ids: Vec<String> = Vec::new();
        let mut i: usize = 0;
        while i < self.entries.len()
            invariant
                i <= self.entries@.len(),
                ids@.len() == i,
                forall|j: int| 0 <= j < i ==> (#[trigger] ids@[j])@ == self.entries@[j].0@,
            decreases self.entries@.len() - i,
        {
            ids.push(self.entries[i].0.clone());
            i = i + 1;
        }
        proof {
            assert forall|k: Seq<char>| #[trigger] self@.contains_key(k) implies exists|i: int|
                0 <= i < ids@.len() && (#[trigger] ids@[i])@ == k by {
                let j = choose|j: int|
                    0 <= j < self.entries@.len() && (#[trigger] self.entries@[j]).0@ == k;
                assert(ids@[j]@ == k);
            }
        }
        ids
    }
}

/// The state of synchronisation of a node: its settings, the peers it knows, the blobs
/// waiting to be fetched, and the blobs being fetched.
pub struct SyncManager {
    config: P2PConfig,
    peers: PeerTable,
    blob_queue: VecDeque<(u128, String)>,
    in_progress: HashSet<u128>,
}

impl SyncManager {
    /// The settings the manager runs with.
    pub closed spec fn settings(&self) -> P2PConfig {
        self.config
    }

    /// The known peers, from id to address.
    pub closed spec fn peers(&self) -> Map<Seq<char>, Seq<char>> {
        self.peers@
    }

    /// The blobs waiting to be fetched, with their expected hashes, oldest first.
    pub closed spec fn queued(&self) -> Seq<(u128, String)> {
        self.blob_queue@
    }

    /// The blobs being fetched.
    pub closed spec fn in_progress(&self) -> Set<u128> {
        self.in_progress@
    }

    /// A manager with the given settings, knowing the peers that answered the handshake
    /// (each `(peer id, address)`, a later entry for an id replacing an earlier one), with
    /// nothing queued and nothing being fetched.
    pub fn new(config: P2PConfig, handshaken: Vec<(String, String)>) -> (manager: Self)
        ensures
            manager.settings() == config,
            manager.peers() == peer_table(handshaken@),
            manager.queued() == Seq::<(u128, String)>::empty(),
            manager.in_progress() == Set::<u128>::empty(),
    {
        let mut peers = PeerTable::new();
        let mut i: usize = 0;
        while i < handshaken.len()
            invariant
                i <= handshaken@.len(),
                peers@ == peer_table(handshaken@.take(i as int)),
            decreases handshaken@.len() - i,
        {
            let peer_id = handshaken[i].0.clone();
            let peer_url = handshaken[i].1.clone();
            peers.insert(peer_id, peer_url);
            assert(handshaken@.take(i + 1).drop_last() =~= handshaken@.take(i as int));
            i = i + 1;
        }
        assert(handshaken@.take(i as int) =~= handshaken@);
        SyncManager { config, peers, blob_queue: VecDeque::new(), in_progress: HashSet::new() }
    }

    /// The settings the manager runs with.
    pub fn config(&self) -> (config: &P2PConfig)
        ensures
            *config == self.settings(),
    {
        &self.config
    }

    /// Registers `peer_url` as the address of the peer `peer_id`, replacing any address it
    /// had.
    pub fn add_peer(&mut self, peer_id: String, peer_url: String)
        ensures
            final(self).peers() == old(self).peers().insert(peer_id@, peer_url@),
            final(self).settings() == old(self).settings(),
            final(self).queued() == old(self).queued(),
            final(self).in_progress() == old(self).in_progress(),
    {
        self.peers.insert(peer_id, peer_url);
    }

    /// The address of the peer `peer_id`, if it is known.
    pub fn peer_url(&self, peer_id: &String) -> (url: Option<String>)
        ensures
            url is Some <==> self.peers().contains_key(peer_id@),
            url matches Some(u) ==> u@ == self.peers()[peer_id@],
    {
        self.peers.get(peer_id)
    }

    /// The ids of the known peers, each once.
    pub fn peer_ids(&self) -> (ids: Vec<String>)
        ensures
            forall|i: int| 0 <= i < ids@.len() ==> self.peers().contains_key(#[trigger] ids@[i]@),
            forall|k: Seq<char>|
                #[trigger] self.peers().contains_key(k) ==> exists|i: int|
                    0 <= i < ids@.len() && (#[trigger] ids@[i])@ == k,
            forall|i: int, j: int|
                0 <= i < j < ids@.len() ==> (#[trigger] ids@[i])@ != (#[trigger] ids@[j])@,
    {
        self.peers.ids()
    }

    /// Queues the blob `blob_id`, expected to hash to `hash`, to be fetched from the peers,
    /// unless it is being fetched already.
    pub fn queue_blob_fetch(&mut self, blob_id: u128, hash: String)
        ensures
            (final(self).queued(), final(self).in_progress()) == queue_step(
                old(self).queued(),
                old(self).in_progress(),
                blob_id,
                hash,
            ),
            final(self).settings() == old(self).settings(),
            final(self).peers() == old(self).peers(),
    {
        if !self.in_progress.contains(&blob_id) {
            self.blob_queue.push_back((blob_id, hash));
            self.in_progress.insert(blob_id);
        }
    }

    /// Takes the next round of blobs to fetch off the front of the queue: as many as are
    /// queued, but no more than the settings allow at once. They stay marked as being
    /// fetched.
    pub fn next_batch(&mut self) -> (batch: Vec<(u128, String)>)
        ensures
            batch@ == old(self).queued().take(
                batch_size(old(self).settings().max_concurrent_syncs, old(self).queued().len()) as int,
            ),
            final(self).queued() == old(self).queued().skip(
                batch_size(old(self).settings().max_concurrent_syncs, old(self).queued().len()) as int,
            ),
            old(self).queued().len() <= old(self).settings().max_concurrent_syncs ==> batch@
                == old(self).queued() && final(self).queued().len() == 0,
            old(self).queued().len() > old(self).settings().max_concurrent_syncs ==> batch@.len()
                == old(self).settings().max_concurrent_syncs && batch@ + final(self).queued()
                == old(self).queued(),
            final(self).in_progress() == old(self).in_progress(),
            final(self).settings() == old(self).settings(),
            final(self).peers() == old(self).peers(),
    {
        let ghost start = self.blob_queue@;
        let queued = self.blob_queue.len();
        let size = if self.config.max_concurrent_syncs < queued {
            self.config.max_concurrent_syncs
        } else {
            queued
        };
        let mut batch: Vec<(u128, String)> = Vec::new();
        let mut k: usize = 0;
        while k < size
            invariant
                k <= size,
                size <= start.len(),
                batch@ == start.take(k as int),
                self.blob_queue@ == start.skip(k as int),
                self.in_progress@ == old(self).in_progress(),
                self.config == old(self).settings(),
                self.peers@ == old(self).peers@,
            decreases size - k,
        {
            match self.blob_queue.pop_front() {
                Some(blob) => {
                    batch.push(blob);
                    assert(batch@ =~= start.take(k + 1));
                    assert(self.blob_queue@ =~= start.skip(k + 1));
                },
                None => {
                    assert(false);
                },
            }
            k = k + 1;
        }
        assert(start.take(size as int) + start.skip(size as int) =~= start);
        assert(start.len() <= self.config.max_concurrent_syncs ==> start.take(size as int) =~= start);
        batch
    }

    /// Marks the blob `blob_id` as no longer being fetched.
    pub fn finish_blob(&mut self, blob_id: u128)
        ensures
            final(self).in_progress() == old(self).in_progress().remove(blob_id),
            final(self).queued() == old(self).queued(),
            final(self).settings() == old(self).settings(),
            final(self).peers() == old(self).peers(),
    {
        self.in_progress.remove(&blob_id);
    }
}

/// With distinct ids, giving entry `i` a new address under its own id is registering that
/// address in the table.
proof fn lemma_replace_entry(entries: Seq<(String, String)>, i: int, entry: (String, String))
    requires
        distinct_ids(entries),
        0 <= i < entries.len(),
        entries[i].0@ == entry.0@,
    ensures
        peer_table(entries.update(i, entry)) == peer_table(entries).insert(entry.0@, entry.1@),
        distinct_ids(entries.update(i, entry)),
    decreases entries.len(),
{
    let updated = entries.update(i, entry);
    let last = entries.len() - 1;
    if i == last {
        assert(updated.drop_last() =~= entries.drop_last());
        assert(peer_table(updated) =~= peer_table(entries).insert(entry.0@, entry.1@));
    } else {
        assert(updated.drop_last() =~= entries.drop_last().update(i, entry));
        lemma_replace_entry(entries.drop_last(), i, entry);
        assert(entries[last].0@ != entry.0@);
        assert(peer_table(updated) =~= peer_table(entries).insert(entry.0@, entry.1@));
    }
    assert forall|a: int, b: int| 0 <= a < b < updated.len() implies (#[trigger] updated[a]).0@
        != (#[trigger] updated[b]).0@ by {
        assert(entries[a].0@ != entries[b].0@);
    }
}

/// The table holds exactly the ids of the entries; with distinct ids, each maps to its
/// entry's address.
proof fn lemma_table_lookup(entries: Seq<(String, String)>)
    requires
        distinct_ids(entries),
    ensures
        forall|k: Seq<char>|
            #[trigger] peer_table(entries).contains_key(k) <==> exists|i: int|
                0 <= i < entries.len() && (#[trigger] entries[i]).0@ == k,
        forall|i: int|
            0 <= i < entries.len() ==> peer_table(entries)[(#[trigger] entries[i]).0@] == entries[i].1@,
    decreases entries.len(),
{
    if entries.len() > 0 {
        let rest = entries.drop_last();
        assert(distinct_ids(rest));
        lemma_table_lookup(rest);
        let last = entries.len() - 1;
        assert forall|k: Seq<char>|
            #[trigger] peer_table(entries).contains_key(k) <==> exists|i: int|
                0 <= i < entries.len() && (#[trigger] entries[i]).0@ == k by {
            if peer_table(entries).contains_key(k) {
                if k == entries[last].0@ {
                    assert(0 <= last < entries.len() && entries[last].0@ == k);
                } else {
                    assert(peer_table(rest).contains_key(k));
                    let j = choose|j: int| 0 <= j < rest.len() && (#[trigger] rest[j]).0@ == k;
                    assert(entries[j] == rest[j]);
                    assert(0 <= j < entries.len() && entries[j].0@ == k);
                }
            }
            if exists|i: int| 0 <= i < entries.len() && (#[trigger] entries[i]).0@ == k {
                let j = choose|j: int| 0 <= j < entries.len() && (#[trigger] entries[j]).0@ == k;
                if j < last {
                    assert(rest[j] == entries[j]);
                    assert(peer_table(rest).contains_key(k));
                }
            }
        }
        assert forall|i: int| 0 <= i < entries.len() implies peer_table(entries)[(
        #[trigger] entries[i]).0@] == entries[i].1@ by {
            if i < last {
                assert(rest[i] == entries[i]);
                assert(entries[i].0@ != entries[last].0@);
            }
        }
    }
}


/// Queueing a blob a second time, with whatever hash, changes nothing: the first request
/// stands until the blob is no longer being fetched.
pub proof fn lemma_queue_twice_is_once(
    queued: Seq<(u128, String)>,
    in_progress: Set<u128>,
    blob_id: u128,
    first_hash: String,
    second_hash: String,
)
    ensures
        ({
            let once = queue_step(queued, in_progress, blob_id, first_hash);
            queue_step(once.0, once.1, blob_id, second_hash) == once
        }),
{
}

/// Queueing keeps the queue consistent: each blob queued at most once, every queued blob
/// marked as being fetched.
pub proof fn lemma_queue_keeps_consistency(
    queued: Seq<(u128, String)>,
    in_progress: Set<u128>,
    blob_id: u128,
    hash: String,
)
    requires
        queue_consistent(queued, in_progress),
    ensures
        ({
            let next = queue_step(queued, in_progress, blob_id, hash);
            queue_consistent(next.0, next.1)
        }),
{
    let next = queue_step(queued, in_progress, blob_id, hash);
    if !in_progress.contains(blob_id) {
        assert forall|i: int, j: int| 0 <= i < j < next.0.len() implies (#[trigger] next.0[i]).0
            != (#[trigger] next.0[j]).0 by {
            if j == queued.len() {
                assert(in_progress.contains(queued[i].0));
            } else {
                assert(next.0[i] == queued[i] && next.0[j] == queued[j]);
            }
        }
        assert forall|i: int| 0 <= i < next.0.len() implies next.1.contains((
        #[trigger] next.0[i]).0) by {
            if i < queued.len() {
                assert(next.0[i] == queued[i]);
            }
        }
    }
}

/// A round takes blobs off the front in queue order: the batch followed by what stays
/// queued is the queue before, no blob lost or reordered, and the queue stays consistent.
pub proof fn lemma_batch_splits_queue(
    queued: Seq<(u128, String)>,
    in_progress: Set<u128>,
    max_concurrent: usize,
)
    ensures
        ({
            let n = batch_size(max_concurrent, queued.len()) as int;
            &&& n <= max_concurrent
            &&& queued.take(n) + queued.skip(n) == queued
            &&& queue_consistent(queued, in_progress) ==> queue_consistent(queued.skip(n), in_progress)
        }),
{
    let n = batch_size(max_concurrent, queued.len()) as int;
    assert(queued.take(n) + queued.skip(n) =~= queued);
    if queue_consistent(queued, in_progress) {
        let rest = queued.skip(n);
        assert forall|i: int, j: int| 0 <= i < j < rest.len() implies (#[trigger] rest[i]).0 != (
        #[trigger] rest[j]).0 by {
            assert(rest[i] == queued[i + n] && rest[j] == queued[j + n]);
        }
        assert forall|i: int| 0 <= i < rest.len() implies in_progress.contains((
        #[trigger] rest[i]).0) by {
            assert(rest[i] == queued[i + n]);
        }
    }
}

/// Finishing a blob that is no longer queued keeps the queue consistent, and the blob can
/// then be queued again.
pub proof fn lemma_finish_keeps_consistency(
    queued: Seq<(u128, String)>,
    in_progress: Set<u128>,
    blob_id: u128,
    hash: String,
)
    requires
        queue_consistent(queued, in_progress),
        forall|i: int| 0 <= i < queued.len() ==> (#[trigger] queued[i]).0 != blob_id,
    ensures
        queue_consistent(queued, in_progress.remove(blob_id)),
        queue_step(queued, in_progress.remove(blob_id), blob_id, hash).0 == queued.push(
            (blob_id, hash),
        ),
{
}

/// A peer registered under an id is found under that id with the address just given, and
/// every other peer keeps its address.
pub proof fn lemma_registered_peer_is_found(
    peers: Map<Seq<char>, Seq<char>>,
    peer_id: Seq<char>,
    peer_url: Seq<char>,
    other: Seq<char>,
)
    requires
        other != peer_id,
    ensures
        peers.insert(peer_id, peer_url).contains_key(peer_id),
        peers.insert(peer_id, peer_url)[peer_id] == peer_url,
        peers.insert(peer_id, peer_url).contains_key(other) == peers.contains_key(other),
        peers.contains_key(other) ==> peers.insert(peer_id, peer_url)[other] == peers[other],
{
}

/// A round takes as many queued blobs as it may: all of them when no more than the limit
/// are queued, and exactly the limit otherwise, and never more than are queued.
pub proof fn lemma_round_takes_all_it_may(max_concurrent: usize, queued: nat)
    ensures
        batch_size(max_concurrent, queued) <= queued,
        batch_size(max_concurrent, queued) <= max_concurrent,
        queued <= max_concurrent ==> batch_size(max_concurrent, queued) == queued,
        queued > max_concurrent ==> batch_size(max_concurrent, queued) == max_concurrent,
{
}

} // verus!
