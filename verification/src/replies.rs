//! The answers a node gives to its peers' requests.

use crate::api::{rfc3339_of, Blob, Timestamp};
use crate::ids::{hyphenated, parse_uuid, uuid_parsed, uuid_text};
use crate::sync_manager::{queue_step, SyncManager};
use vstd::prelude::*;

verus! {

/// How a request went.
#[derive(Debug, Clone, Copy, PartialEq, Eq, Structural)]
pub enum SyncStatus {
    Success,
    Error,
    AlreadyExists,
    NotFound,
}

/// How a node answered a handshake.
#[derive(Debug, Clone, Copy, PartialEq, Eq, Structural)]
pub enum HandshakeStatus {
    Acknowledged,
    Rejected,
}

/// What peers are told about a blob.
#[derive(Debug, Clone)]
pub struct BlobMetadata {
    pub id: String,
    pub hash: String,
    pub content_type: Option<String>,
    pub size: i32,
    pub owner_id: String,
    pub public_key: String,
    pub metadata: Option<String>,
    pub created_at: String,
    pub deleted_at: Option<String>,
}

/// A blob as sent to a peer: its metadata and, if asked for, its content.
#[derive(Debug, Clone)]
pub struct SharedBlob {
    pub metadata: BlobMetadata,
    pub content: Vec<u8>,
}

/// Where the sync of a blob with one peer stands.
#[derive(Debug, Clone)]
pub struct PeerSyncStatus {
    pub peer_id: String,
    pub blob_id: String,
    pub status: String,
    pub last_sync_attempt: Option<String>,
    pub last_successful_sync: Option<String>,
}

/// A copy of an optional text.
fn copy_text(text: &Option<String>) -> (copy: Option<String>)
    ensures
        copy == *text,
{
    match text {
        Some(t) => Some(t.clone()),
        None => None,
    }
}

/// The RFC 3339 text of an optional point in time: `Some(None)` for no time, `None` where
/// the time cannot be written.
fn optional_time_text(time: &Option<Timestamp>) -> (text: Option<Option<String>>)
    ensures
        match *time {
            None => text == Some(None::<String>),
            Some(t) => match rfc3339_of(t.seconds, t.nanos) {
                None => text is None,
                Some(written) => text matches Some(Some(s)) && s@ == written,
            },
        },
{
    match time {
        None => Some(None),
        Some(t) => match t.to_rfc3339() {
            Some(s) => Some(Some(s)),
            None => None,
        },
    }
}

/// What peers are told about a stored blob: its id and owner as hyphenated UUIDs, its hash
/// (empty when it has none), and its times in RFC 3339 text. `None` where a time cannot
/// be written.
pub fn blob_metadata(blob: &Blob) -> (metadata: Option<BlobMetadata>)
    ensures
        metadata is Some <==> rfc3339_of(blob.created_at.seconds, blob.created_at.nanos) is Some
            && (blob.deleted_at matches Some(d) ==> rfc3339_of(d.seconds, d.nanos) is Some),
        metadata matches Some(m) ==> {
            &&& m.id@ == hyphenated(blob.id)
            &&& m.hash@ == match blob.hash {
                Some(h) => h@,
                None => Seq::<char>::empty(),
            }
            &&& m.content_type == blob.content_type
            &&& m.size == blob.size
            &&& m.owner_id@ == hyphenated(blob.owner_id)
            &&& m.public_key == blob.public_key
            &&& m.metadata == blob.metadata
            &&& rfc3339_of(blob.created_at.seconds, blob.created_at.nanos) == Some(m.created_at@)
            &&& match blob.deleted_at {
                None => m.deleted_at is None,
                Some(d) => m.deleted_at matches Some(t) && rfc3339_of(d.seconds, d.nanos) == Some(
                    t@,
                ),
            }
        },
{
    let created_at = match blob.created_at.to_rfc3339() {
        Some(t) => t,
        None => return None,
    };
    let deleted_at = match optional_time_text(&blob.deleted_at) {
        Some(t) => t,
        None => return None,
    };
    let hash = match &blob.hash {
        Some(h) => h.clone(),
        None => String::new(),
    };
    Some(
        BlobMetadata {
            id: uuid_text(blob.id),
            hash,
            content_type: copy_text(&blob.content_type),
            size: blob.size,
            owner_id: uuid_text(blob.owner_id),
            public_key: blob.public_key.clone(),
            metadata: copy_text(&blob.metadata),
            created_at,
            deleted_at,
        },
    )
}

/// The sync status of a blob with one peer, its times in RFC 3339 text. `None` where a time
/// cannot be written.
pub fn peer_sync_status(
    peer_id: String,
    blob_id: String,
    status: String,
    last_sync_attempt: Option<Timestamp>,
    last_successful_sync: Option<Timestamp>,
) -> (row: Option<PeerSyncStatus>)
    ensures
        row is Some <==> (last_sync_attempt matches Some(t) ==> rfc3339_of(t.seconds, t.nanos) is Some)
            && (last_successful_sync matches Some(t) ==> rfc3339_of(t.seconds, t.nanos) is Some),
        row matches Some(r) ==> {
            &&& r.peer_id == peer_id
            &&& r.blob_id == blob_id
            &&& r.status == status
            &&& match last_sync_attempt {
                None => r.last_sync_attempt is None,
                Some(t) => r.last_sync_attempt matches Some(s) && rfc3339_of(t.seconds, t.nanos)
                    == Some(s@),
            }
            &&& match last_successful_sync {
                None => r.last_successful_sync is None,
                Some(t) => r.last_successful_sync matches Some(s) && rfc3339_of(t.seconds, t.nanos)
                    == Some(s@),
            }
        },
{
    let attempt = match optional_time_text(&last_sync_attempt) {
        Some(t) => t,
        None => return None,
    };
    let success = match optional_time_text(&last_successful_sync) {
        Some(t) => t,
        None => return None,
    };
    Some(
        PeerSyncStatus {
            peer_id,
            blob_id,
            status,
            last_sync_attempt: attempt,
            last_successful_sync: success,
        },
    )
}

/// The payload of an answer, by kind of request.
#[derive(Debug, Clone)]
pub enum ReplyData {
    Announce { accepted: bool },
    Fetch { blob: Option<SharedBlob> },
    Delete { deleted: bool },
    Status { peer_statuses: Vec<PeerSyncStatus> },
    NodeInfo { node_id: String, blob_count: i32, storage_used: i64, capabilities: Vec<String> },
    Handshake { status: HandshakeStatus, peer_id: Option<String> },
}

/// An answer to a peer.
#[derive(Debug, Clone)]
pub struct SyncReply {
    pub status: SyncStatus,
    pub message: String,
    pub data: Option<ReplyData>,
}

/// A request refused before it is handled.
#[derive(Debug, Clone, Copy, PartialEq, Eq, Structural)]
pub enum RequestError {
    /// The blob id is not a UUID.
    InvalidUuid,
}

impl RequestError {
    /// The message this error reads as.
    pub fn message(&self) -> (text: String)
        ensures
            text@ == "Invalid uuid"@,
    {
        String::from_str("Invalid uuid")
    }
}

/// The answer to an announcement that carries no metadata.
pub fn missing_metadata_reply() -> (reply: SyncReply)
    ensures
        reply.status == SyncStatus::Error,
        reply.message@ == "Missing metadata"@,
        reply.data is None,
{
    SyncReply { status: SyncStatus::Error, message: String::from_str("Missing metadata"), data: None }
}

/// Handles the announcement of blob `blob_id`, expected to hash to `hash`, given whether
/// the node has it already: a blob it has is declined; otherwise the id must be a UUID,
/// and the blob is queued to be fetched and the announcement accepted.
pub fn handle_announce(
    manager: &mut SyncManager,
    blob_id: &str,
    hash: String,
    blob_exists: bool,
) -> (reply: Result<SyncReply, RequestError>)
    ensures
        blob_exists ==> (reply matches Ok(r) && r.status == SyncStatus::AlreadyExists
            && r.message@ == "Blob already exists"@ && r.data == Some(
            ReplyData::Announce { accepted: false },
        )),
        !blob_exists && uuid_parsed(blob_id@) is None ==> reply == Err::<SyncReply, RequestError>(
            RequestError::InvalidUuid,
        ),
        (!blob_exists && uuid_parsed(blob_id@) is Some) ==> (reply matches Ok(r) && r.status
            == SyncStatus::Success && r.message@ == "Blob announcement accepted"@ && r.data == Some(
            ReplyData::Announce { accepted: true },
        ) && (final(manager).queued(), final(manager).in_progress()) == queue_step(
            old(manager).queued(),
            old(manager).in_progress(),
            uuid_parsed(blob_id@).unwrap(),
            hash,
        )),
        !(!blob_exists && uuid_parsed(blob_id@) is Some) ==> (final(manager).queued()
            == old(manager).queued() && final(manager).in_progress() == old(manager).in_progress()),
        final(manager).peers() == old(manager).peers(),
        final(manager).settings() == old(manager).settings(),
{
    if blob_exists {
        return Ok(
            SyncReply {
                status: SyncStatus::AlreadyExists,
                message: String::from_str("Blob already exists"),
                data: Some(ReplyData::Announce { accepted: false }),
            },
        );
    }
    let id = match parse_uuid(blob_id) {
        Some(id) => id,
        None => return Err(RequestError::InvalidUuid),
    };
    manager.queue_blob_fetch(id, hash);
    Ok(
        SyncReply {
            status: SyncStatus::Success,
            message: String::from_str("Blob announcement accepted"),
            data: Some(ReplyData::Announce { accepted: true }),
        },
    )
}

/// The id of a blob a peer asks for, which must be a UUID.
pub fn fetch_request_id(blob_id: &str) -> (id: Result<u128, RequestError>)
    ensures
        id == match uuid_parsed(blob_id@) {
            Some(v) => Ok::<u128, RequestError>(v),
            None => Err(RequestError::InvalidUuid),
        },
{
    match parse_uuid(blob_id) {
        Some(v) => Ok(v),
        None => Err(RequestError::InvalidUuid),
    }
}

/// `"Blob not found: "` followed by the requested id.
pub open spec fn not_found_message(blob_id: Seq<char>) -> Seq<char> {
    "Blob not found: "@ + blob_id
}

/// The answer to a request for blob `blob_id`, given the blob if the node has it: a blob
/// it lacks is reported as not found; one it has is sent, with its content only if the
/// peer asked for the content.
pub fn handle_fetch(blob_id: &str, found: Option<SharedBlob>, include_content: bool) -> (reply: SyncReply)
    ensures
        found is None ==> reply.status == SyncStatus::NotFound && reply.message@ == not_found_message(
            blob_id@,
        ) && reply.data == Some(ReplyData::Fetch { blob: None }),
        found matches Some(b) ==> reply.status == SyncStatus::Success && reply.message@
            == "Blob fetched successfully"@ && (reply.data matches Some(
            ReplyData::Fetch { blob: Some(sent) },
        ) && sent.metadata == b.metadata && sent.content@ == (if include_content {
            b.content@
        } else {
            Seq::<u8>::empty()
        })),
{
    match found {
        None => SyncReply {
            status: SyncStatus::NotFound,
            message: String::from_str("Blob not found: ").concat(blob_id),
            data: Some(ReplyData::Fetch { blob: None }),
        },
        Some(blob) => {
            let content = if include_content {
                blob.content
            } else {
                Vec::new()
            };
            SyncReply {
                status: SyncStatus::Success,
                message: String::from_str("Blob fetched successfully"),
                data: Some(
                    ReplyData::Fetch { blob: Some(SharedBlob { metadata: blob.metadata, content }) },
                ),
            }
        },
    }
}

/// The answer to a request to delete blob `blob_id`, given whether the node has it (and
/// has then marked it deleted).
pub fn handle_delete(blob_id: &str, blob_exists: bool) -> (reply: SyncReply)
    ensures
        !blob_exists ==> reply.status == SyncStatus::NotFound && reply.message@ == not_found_message(
            blob_id@,
        ) && reply.data == Some(ReplyData::Delete { deleted: false }),
        blob_exists ==> reply.status == SyncStatus::Success && reply.message@
            == "Blob deleted successfully"@ && reply.data == Some(ReplyData::Delete { deleted: true }),
{
    if !blob_exists {
        return SyncReply {
            status: SyncStatus::NotFound,
            message: String::from_str("Blob not found: ").concat(blob_id),
            data: Some(ReplyData::Delete { deleted: false }),
        };
    }
    SyncReply {
        status: SyncStatus::Success,
        message: String::from_str("Blob deleted successfully"),
        data: Some(ReplyData::Delete { deleted: true }),
    }
}

/// The answer to a request for the sync status of a blob: the status with each peer.
pub fn handle_sync_status(peer_statuses: Vec<PeerSyncStatus>) -> (reply: SyncReply)
    ensures
        reply.status == SyncStatus::Success,
        reply.message@ == "Sync status retrieved"@,
        reply.data matches Some(ReplyData::Status { peer_statuses: s }) && s@ == peer_statuses@,
{
    SyncReply {
        status: SyncStatus::Success,
        message: String::from_str("Sync status retrieved"),
        data: Some(ReplyData::Status { peer_statuses }),
    }
}

/// The answer to a request for information about the node: its id, how many blobs it
/// holds, how many bytes they take, and what it can do.
pub fn handle_node_info(manager: &SyncManager, blob_count: i32, storage_used: i64) -> (reply: SyncReply)
    ensures
        reply.status == SyncStatus::Success,
        reply.message@ == "Node info retrieved"@,
        reply.data matches Some(
            ReplyData::NodeInfo { node_id, blob_count: count, storage_used: used, capabilities },
        ) && node_id@ == manager.settings().node_id@ && count == blob_count && used == storage_used
            && capabilities@.len() == 2 && capabilities@[0]@ == "blob_sync"@ && capabilities@[1]@
            == "user_auth"@,
{
    let mut capabilities: Vec<String> = Vec::new();
    capabilities.push(String::from_str("blob_sync"));
    capabilities.push(String::from_str("user_auth"));
    SyncReply {
        status: SyncStatus::Success,
        message: String::from_str("Node info retrieved"),
        data: Some(
            ReplyData::NodeInfo {
                node_id: manager.config().node_id.clone(),
                blob_count,
                storage_used,
                capabilities,
            },
        ),
    }
}

/// Handles a handshake from the node `node_id` at `node_url`: it becomes a known peer, and
/// the answer acknowledges it with this node's id.
pub fn handle_handshake(manager: &mut SyncManager, node_id: String, node_url: String) -> (reply: SyncReply)
    ensures
        final(manager).peers() == old(manager).peers().insert(node_id@, node_url@),
        final(manager).queued() == old(manager).queued(),
        final(manager).in_progress() == old(manager).in_progress(),
        final(manager).settings() == old(manager).settings(),
        reply.status == SyncStatus::Success,
        reply.message@ == "Handshake successful"@,
        reply.data matches Some(ReplyData::Handshake { status, peer_id: Some(id) })
            && status == HandshakeStatus::Acknowledged && id@ == old(manager).settings().node_id@,
{
    manager.add_peer(node_id, node_url);
    SyncReply {
        status: SyncStatus::Success,
        message: String::from_str("Handshake successful"),
        data: Some(
            ReplyData::Handshake {
                status: HandshakeStatus::Acknowledged,
                peer_id: Some(manager.config().node_id.clone()),
            },
        ),
    }
}

/// The answer to a request of no known kind.
pub fn invalid_request_reply() -> (reply: SyncReply)
    ensures
        reply.status == SyncStatus::Error,
        reply.message@ == "Invalid request type"@,
        reply.data is None,
{
    SyncReply { status: SyncStatus::Error, message: String::from_str("Invalid request type"), data: None }
}

} // verus!
