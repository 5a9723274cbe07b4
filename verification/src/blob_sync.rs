//! What a node decides while fetching a blob from its peers and announcing its own blobs.

use crate::digest::{content_hash, lower_hex, sha256_of};
use crate::sync_manager::SyncManager;
use vstd::prelude::*;

verus! {

/// A received blob is kept when its content hashes to the expected hash, or when the peer's
/// metadata names the expected hash.
pub open spec fn accepts_blob(content: Seq<u8>, metadata_hash: Seq<char>, expected_hash: Seq<char>) -> bool {
    lower_hex(sha256_of(content)) == expected_hash || metadata_hash == expected_hash
}

/// Checks a blob received from a peer against the hash it was announced with: refused only
/// when neither its content's hash nor the hash in its metadata is the expected one.
pub fn verify_received_blob(content: &[u8], metadata_hash: &String, expected_hash: &String) -> (keep: bool)
    ensures
        keep == accepts_blob(content@, metadata_hash@, expected_hash@),
{
    let computed_hash = content_hash(content);
    if !(computed_hash == *expected_hash) && !(*metadata_hash == *expected_hash) {
        return false;
    }
    true
}

/// What a peer answered when asked for a blob.
pub enum PeerReply {
    /// The peer sent the blob: the hash in its metadata, if it sent metadata, and its
    /// content.
    Blob { metadata_hash: Option<String>, content: Vec<u8> },
    /// The peer does not have the blob.
    NotFound,
    /// Asking the peer failed.
    Failed,
}

/// What to do with a peer's answer.
pub enum FetchVerdict {
    /// Store the blob and record the sync with this peer as completed; stop asking.
    Store,
    /// The blob does not match its hash: record the sync with this peer as failed and ask
    /// the next peer.
    Reject,
    /// The blob came without metadata: ask the next peer, recording nothing.
    Skip,
    /// The peer could not give the blob: record the sync with this peer as failed and ask
    /// the next peer.
    MarkFailed,
}

/// Decides what to do with a peer's answer to a request for a blob expected to hash to
/// `expected_hash`.
pub fn fetch_verdict(reply: &PeerReply, expected_hash: &String) -> (verdict: FetchVerdict)
    ensures
        match reply {
            PeerReply::Blob { metadata_hash: None, .. } => verdict is Skip,
            PeerReply::Blob { metadata_hash: Some(h), content } => if accepts_blob(
                content@,
                h@,
                expected_hash@,
            ) {
                verdict is Store
            } else {
                verdict is Reject
            },
            _ => verdict is MarkFailed,
        },
{
    match reply {
        PeerReply::Blob { metadata_hash, content } => match metadata_hash {
            None => FetchVerdict::Skip,
            Some(h) => {
                if verify_received_blob(content.as_slice(), h, expected_hash) {
                    FetchVerdict::Store
                } else {
                    FetchVerdict::Reject
                }
            },
        },
        PeerReply::NotFound => FetchVerdict::MarkFailed,
        PeerReply::Failed => FetchVerdict::MarkFailed,
    }
}

/// Where the fetch of a blob from the peers stands.
#[derive(Debug, Clone, Copy, PartialEq, Eq, Structural)]
pub enum FetchPhase {
    /// The blob is stored already: each peer is recorded as pending in turn.
    MarkingKnown,
    /// The current peer is to be recorded as pending before it is asked.
    Starting,
    /// The current peer is to be asked.
    Asking,
    /// The current peer has been asked; its answer is awaited.
    Awaiting,
    /// Nothing is left to do.
    Done,
}

/// What to do next while fetching a blob.
#[derive(Debug, Clone, PartialEq, Eq)]
pub enum FetchAction {
    /// Record the sync of the blob with this peer as pending.
    MarkPending(String),
    /// Ask this peer for the blob.
    Ask(String),
    /// Store the blob this peer sent and record the sync with it as completed.
    Store(String),
    /// Record the sync of the blob with this peer as failed.
    MarkFailed(String),
    /// This peer sent the blob without metadata; note it and go on.
    Skip(String),
    /// No peer had the blob; note it.
    GiveUp,
    /// The fetch is over.
    Finish,
}

/// One step of a fetch, from the peers to ask, the current peer and the phase, given the
/// verdict on the current peer's answer when one is awaited: the next peer, the next
/// phase and what to do.
pub open spec fn fetch_transition(
    peers: Seq<String>,
    index: nat,
    phase: FetchPhase,
    verdict: Option<FetchVerdict>,
) -> (nat, FetchPhase, FetchAction) {
    match phase {
        FetchPhase::MarkingKnown => if index < peers.len() {
            (index + 1, FetchPhase::MarkingKnown, FetchAction::MarkPending(peers[index as int]))
        } else {
            (index, FetchPhase::Done, FetchAction::Finish)
        },
        FetchPhase::Starting => if index < peers.len() {
            (index, FetchPhase::Asking, FetchAction::MarkPending(peers[index as int]))
        } else {
            (index, FetchPhase::Done, FetchAction::GiveUp)
        },
        FetchPhase::Asking => (index, FetchPhase::Awaiting, FetchAction::Ask(peers[index as int])),
        FetchPhase::Awaiting => match verdict {
            None => (index, FetchPhase::Awaiting, FetchAction::Ask(peers[index as int])),
            Some(FetchVerdict::Store) => (index, FetchPhase::Done, FetchAction::Store(peers[index as int])),
            Some(FetchVerdict::Reject) => (
                index + 1,
                FetchPhase::Starting,
                FetchAction::MarkFailed(peers[index as int]),
            ),
            Some(FetchVerdict::MarkFailed) => (
                index + 1,
                FetchPhase::Starting,
                FetchAction::MarkFailed(peers[index as int]),
            ),
            Some(FetchVerdict::Skip) => (index + 1, FetchPhase::Starting, FetchAction::Skip(peers[index as int])),
        },
        FetchPhase::Done => (index, FetchPhase::Done, FetchAction::Finish),
    }
}

/// The phase holds a current peer exactly when it needs one.
pub open spec fn fetch_state_valid(peers_len: nat, index: nat, phase: FetchPhase) -> bool {
    &&& index <= peers_len
    &&& (phase is Asking || phase is Awaiting) ==> index < peers_len
}

/// The fetch of one blob from the node's peers, in the order given: a blob the node has
/// already is only recorded as pending with each peer; otherwise each peer in turn is
/// recorded as pending and asked, until one sends a blob that is kept.
pub struct BlobFetch {
    peers: Vec<String>,
    index: usize,
    phase: FetchPhase,
}

impl BlobFetch {
    #[verifier::type_invariant]
    spec fn state_valid(&self) -> bool {
        fetch_state_valid(self.peers@.len(), self.index as nat, self.phase)
    }

    /// The peers to ask.
    pub closed spec fn peer_list(&self) -> Seq<String> {
        self.peers@
    }

    /// The position of the current peer.
    pub closed spec fn position(&self) -> nat {
        self.index as nat
    }

    /// The phase of the fetch.
    pub closed spec fn stage(&self) -> FetchPhase {
        self.phase
    }

    /// A fetch from `peers`, given whether the node has the blob already.
    pub fn new(peers: Vec<String>, blob_exists: bool) -> (fetch: Self)
        ensures
            fetch.peer_list() == peers@,
            fetch.position() == 0,
            fetch.stage() == (if blob_exists {
                FetchPhase::MarkingKnown
            } else {
                FetchPhase::Starting
            }),
            fetch_state_valid(fetch.peer_list().len(), fetch.position(), fetch.stage()),
    {
        let phase = if blob_exists {
            FetchPhase::MarkingKnown
        } else {
            FetchPhase::Starting
        };
        BlobFetch { peers, index: 0, phase }
    }

    /// Takes one step: `verdict` is the verdict on the current peer's answer while one is
    /// awaited (without it the peer is asked again), and is not looked at otherwise.
    pub fn next_action(&mut self, verdict: Option<FetchVerdict>) -> (action: FetchAction)
        ensures
            fetch_state_valid(old(self).peer_list().len(), old(self).position(), old(self).stage()),
            final(self).peer_list() == old(self).peer_list(),
            (final(self).position(), final(self).stage(), action) == fetch_transition(
                old(self).peer_list(),
                old(self).position(),
                old(self).stage(),
                verdict,
            ),
            fetch_state_valid(final(self).peer_list().len(), final(self).position(), final(self).stage()),
            old(self).stage() is Starting && old(self).position() < old(self).peer_list().len()
                ==> action == FetchAction::MarkPending(old(self).peer_list()[old(self).position() as int])
                && final(self).position() == old(self).position() && final(self).stage() is Asking,
            old(self).stage() is Asking ==> action == FetchAction::Ask(
                old(self).peer_list()[old(self).position() as int],
            ) && final(self).position() == old(self).position() && final(self).stage() is Awaiting,
            action is GiveUp <==> (old(self).stage() is Starting && old(self).position()
                == old(self).peer_list().len()),
            action is GiveUp ==> final(self).stage() is Done,
            old(self).stage() is Awaiting && verdict is Some && !(verdict == Some(FetchVerdict::Store))
                ==> final(self).position() == old(self).position() + 1 && final(self).stage() is Starting,
            old(self).stage() is Awaiting && verdict == Some(FetchVerdict::Store) ==> action
                == FetchAction::Store(old(self).peer_list()[old(self).position() as int])
                && final(self).stage() is Done,
    {
        proof {
            use_type_invariant(&*self);
        }
        let len = self.peers.len();
        match self.phase {
            FetchPhase::MarkingKnown => {
                if self.index < len {
                    let peer = self.peers[self.index].clone();
                    self.index = self.index + 1;
                    FetchAction::MarkPending(peer)
                } else {
                    self.phase = FetchPhase::Done;
                    FetchAction::Finish
                }
            },
            FetchPhase::Starting => {
                if self.index < len {
                    self.phase = FetchPhase::Asking;
                    FetchAction::MarkPending(self.peers[self.index].clone())
                } else {
                    self.phase = FetchPhase::Done;
                    FetchAction::GiveUp
                }
            },
            FetchPhase::Asking => {
                self.phase = FetchPhase::Awaiting;
                FetchAction::Ask(self.peers[self.index].clone())
            },
            FetchPhase::Awaiting => {
                let peer = self.peers[self.index].clone();
                match verdict {
                    None => FetchAction::Ask(peer),
                    Some(FetchVerdict::Store) => {
                        self.phase = FetchPhase::Done;
                        FetchAction::Store(peer)
                    },
                    Some(FetchVerdict::Reject) => {
                        self.phase = FetchPhase::Starting;
                        self.index = self.index + 1;
                        FetchAction::MarkFailed(peer)
                    },
                    Some(FetchVerdict::MarkFailed) => {
                        self.phase = FetchPhase::Starting;
                        self.index = self.index + 1;
                        FetchAction::MarkFailed(peer)
                    },
                    Some(FetchVerdict::Skip) => {
                        self.phase = FetchPhase::Starting;
                        self.index = self.index + 1;
                        FetchAction::Skip(peer)
                    },
                }
            },
            FetchPhase::Done => FetchAction::Finish,
        }
    }
}

/// How many steps a fetch has left at most, counting an awaited answer as one step.
pub open spec fn fetch_steps_left(peers_len: nat, index: nat, phase: FetchPhase) -> nat {
    let rest = (peers_len - index) as nat;
    match phase {
        FetchPhase::MarkingKnown => rest + 1,
        FetchPhase::Starting => 3 * rest + 1,
        FetchPhase::Asking => 3 * rest,
        FetchPhase::Awaiting => (3 * rest - 1) as nat,
        FetchPhase::Done => 0,
    }
}

/// Every step of an unfinished fetch, given the verdict when an answer is awaited, brings
/// it closer to its end; a finished fetch stays finished.
pub proof fn lemma_fetch_progresses(
    peers: Seq<String>,
    index: nat,
    phase: FetchPhase,
    verdict: Option<FetchVerdict>,
)
    requires
        fetch_state_valid(peers.len(), index, phase),
        phase is Awaiting ==> verdict is Some,
    ensures
        ({
            let (next_index, next_phase, _) = fetch_transition(peers, index, phase, verdict);
            &&& fetch_state_valid(peers.len(), next_index, next_phase)
            &&& phase !is Done ==> fetch_steps_left(peers.len(), next_index, next_phase)
                < fetch_steps_left(peers.len(), index, phase)
            &&& phase is Done ==> next_phase is Done
        }),
{
}

/// A fetch of a blob the node already has asks no peer and stores nothing: it only
/// records peers as pending, in order, and then finishes.
pub proof fn lemma_known_blob_is_not_fetched(
    peers: Seq<String>,
    index: nat,
    verdict: Option<FetchVerdict>,
)
    requires
        index <= peers.len(),
    ensures
        ({
            let (next_index, next_phase, action) = fetch_transition(
                peers,
                index,
                FetchPhase::MarkingKnown,
                verdict,
            );
            &&& index < peers.len() ==> action == FetchAction::MarkPending(peers[index as int])
                && next_index == index + 1 && next_phase is MarkingKnown
            &&& index == peers.len() ==> action == FetchAction::Finish && next_phase is Done
        }),
{
}

/// A fetch stops at the first peer whose blob is kept: that blob is stored and nothing
/// else is done afterwards; a peer whose blob is refused is recorded as failed and the
/// next peer is tried.
pub proof fn lemma_fetch_stops_at_first_kept_blob(peers: Seq<String>, index: nat, verdict: FetchVerdict)
    requires
        index < peers.len(),
    ensures
        ({
            let (next_index, next_phase, action) = fetch_transition(
                peers,
                index,
                FetchPhase::Awaiting,
                Some(verdict),
            );
            &&& verdict is Store ==> action == FetchAction::Store(peers[index as int])
                && next_phase is Done
            &&& !(verdict is Store) ==> next_index == index + 1 && next_phase is Starting
                && action != FetchAction::Store(peers[index as int])
        }),
        forall|i: nat, v: Option<FetchVerdict>|
            #[trigger] fetch_transition(peers, i, FetchPhase::Done, v).2 == FetchAction::Finish,
{
}

/// A fetch of a blob the node lacks gives up only once every peer has had its turn: while
/// a peer is left, its turn records it as pending and then asks it.
pub proof fn lemma_every_peer_is_asked_before_giving_up(
    peers: Seq<String>,
    index: nat,
    first: Option<FetchVerdict>,
    second: Option<FetchVerdict>,
)
    requires
        index <= peers.len(),
    ensures
        fetch_transition(peers, index, FetchPhase::Starting, first).2 is GiveUp <==> index
            == peers.len(),
        index < peers.len() ==> ({
            let (mid_index, mid_phase, marked) = fetch_transition(
                peers,
                index,
                FetchPhase::Starting,
                first,
            );
            let (next_index, next_phase, asked) = fetch_transition(
                peers,
                mid_index,
                mid_phase,
                second,
            );
            &&& marked == FetchAction::MarkPending(peers[index as int])
            &&& asked == FetchAction::Ask(peers[index as int])
            &&& next_index == index
            &&& next_phase is Awaiting
        }),
{
}

/// The peers to announce a blob to: of the peers still waiting for it, in the order given,
/// those the node knows, each with its address.
pub fn announce_targets(manager: &SyncManager, pending_peers: &Vec<String>) -> (targets: Vec<(String, String)>)
    ensures
        targets@.len() <= pending_peers@.len(),
        forall|i: int|
            0 <= i < targets@.len() ==> manager.peers().contains_key((#[trigger] targets@[i]).0@)
                && manager.peers()[targets@[i].0@] == targets@[i].1@,
        targets@.map_values(|t: (String, String)| t.0@) == pending_peers@.map_values(
            |p: String| p@,
        ).filter(|p: Seq<char>| manager.peers().contains_key(p)),
{
    let ghost known = |p: Seq<char>| manager.peers().contains_key(p);
    let ghost ids = pending_peers@.map_values(|p: String| p@);
    let mut targets: Vec<(String, String)> = Vec::new();
    let mut i: usize = 0;
    while i < pending_peers.len()
        invariant
            i <= pending_peers@.len(),
            ids == pending_peers@.map_values(|p: String| p@),
            known == (|p: Seq<char>| manager.peers().contains_key(p)),
            targets@.len() <= i,
            forall|k: int|
                0 <= k < targets@.len() ==> manager.peers().contains_key((#[trigger] targets@[k]).0@)
                    && manager.peers()[targets@[k].0@] == targets@[k].1@,
            targets@.map_values(|t: (String, String)| t.0@) == ids.take(i as int).filter(known),
        decreases pending_peers@.len() - i,
    {
        let ghost before = targets@;
        let peer_id = &pending_peers[i];
        match manager.peer_url(peer_id) {
            Some(url) => {
                targets.push((peer_id.clone(), url));
                assert(targets@.map_values(|t: (String, String)| t.0@) =~= before.map_values(
                    |t: (String, String)| t.0@,
                ).push(peer_id@));
            },
            None => {},
        }
        proof {
            reveal(Seq::filter);
            assert(ids.take(i + 1).drop_last() =~= ids.take(i as int));
            assert(ids.take(i + 1).last() == peer_id@);
        }
        i = i + 1;
    }
    assert(ids.take(i as int) =~= ids);
    targets
}

/// A blob that reaches a peer intact is kept there: its content hashes to the hash it was
/// stored and announced under, whatever the metadata says.
pub proof fn lemma_intact_blob_is_kept(content: Seq<u8>, metadata_hash: Seq<char>)
    ensures
        accepts_blob(content, metadata_hash, lower_hex(sha256_of(content))),
{
}

} // verus!
