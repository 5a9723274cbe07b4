use da_node::accounts::{
    authorize_delete, bearer_token, check_login, password_record, session_claims, ApiError,
    SESSION_SECONDS,
};
use da_node::api::{received_created_at, Blob, BlobSchema, Query, Timestamp, User, UserSchema};
use da_node::blob_sync::{
    announce_targets, fetch_verdict, verify_received_blob, BlobFetch, FetchAction, FetchVerdict,
    PeerReply,
};
use da_node::blobs::{encoded_content, UserKeys};
use da_node::digest::{content_hash, to_lower_hex};
use da_node::errors::CryptoError;
use da_node::exit::{report_exit, Level, TaskError};
use da_node::loader::{assemble_batch, batch_placeholders, blob_batch_query, user_batch_query, LoadError};
use da_node::p2p_config::P2PConfig;
use da_node::replies::{
    fetch_request_id, handle_announce, handle_delete, handle_fetch, handle_handshake,
    handle_node_info, handle_sync_status, invalid_request_reply, missing_metadata_reply,
    BlobMetadata, HandshakeStatus, PeerSyncStatus, ReplyData, RequestError, SharedBlob, SyncStatus,
};
use da_node::replies::{blob_metadata, peer_sync_status};
use da_node::settings::{config_file_path, merge_settings, CliSettings, ServerSettings};
use da_node::sync_manager::SyncManager;
use da_node::types::PrivateKey;

const BLOB_A: &str = "67e55044-10b1-426f-9247-bb680e5fe0c8";
const BLOB_A_VALUE: u128 = 0x67e5504410b1426f9247bb680e5fe0c8;

fn manager_with(max: usize) -> SyncManager {
    let mut config = P2PConfig::default().unwrap().with_node_id("node-1".to_string());
    config.max_concurrent_syncs = max;
    SyncManager::new(config, vec![])
}

fn stamp() -> Timestamp {
    Timestamp { seconds: 1_700_000_000, nanos: 5 }
}

fn sample_metadata() -> BlobMetadata {
    BlobMetadata {
        id: BLOB_A.to_string(),
        hash: "h".to_string(),
        content_type: Some("text/plain".to_string()),
        size: 3,
        owner_id: "owner".to_string(),
        public_key: "pk".to_string(),
        metadata: None,
        created_at: "2024-01-01T00:00:00+00:00".to_string(),
        deleted_at: None,
    }
}

#[test]
fn default_config_values() {
    let config = P2PConfig::default().unwrap();
    assert_eq!(config.listen_addr, "127.0.0.1:50051");
    assert!(config.peers.is_empty());
    assert_eq!(config.sync_interval_secs, 60);
    assert_eq!(config.max_concurrent_syncs, 5);
    assert_eq!(config.max_blob_size, 10 * 1024 * 1024);
    assert_eq!(config.node_id.len(), 36);
    let parsed = uuid::Uuid::parse_str(&config.node_id).unwrap();
    assert_eq!(parsed.get_version_num(), 4);
    assert_eq!(parsed.to_string(), config.node_id);
}

#[test]
fn config_builders_replace_one_field() {
    let config = P2PConfig::default().unwrap()
        .with_peers(vec!["http://a:1".to_string(), "http://b:2".to_string()])
        .with_node_id("me".to_string())
        .with_listen_addr("0.0.0.0:9000".to_string())
        .with_sync_interval(7);
    assert_eq!(config.peers, vec!["http://a:1".to_string(), "http://b:2".to_string()]);
    assert_eq!(config.node_id, "me");
    assert_eq!(config.listen_addr, "0.0.0.0:9000");
    assert_eq!(config.sync_interval_secs, 7);
    assert_eq!(config.max_concurrent_syncs, 5);
}

#[test]
fn queueing_a_blob_twice_keeps_one_entry() {
    let mut manager = manager_with(5);
    manager.queue_blob_fetch(1, "first".to_string());
    manager.queue_blob_fetch(1, "second".to_string());
    manager.queue_blob_fetch(2, "other".to_string());
    let batch = manager.next_batch();
    assert_eq!(batch, vec![(1, "first".to_string()), (2, "other".to_string())]);
    // still in progress: queueing again does nothing
    manager.queue_blob_fetch(1, "third".to_string());
    assert!(manager.next_batch().is_empty());
    // once finished it can be queued again
    manager.finish_blob(1);
    manager.queue_blob_fetch(1, "third".to_string());
    assert_eq!(manager.next_batch(), vec![(1, "third".to_string())]);
}

#[test]
fn batches_are_capped_and_keep_order() {
    let mut manager = manager_with(2);
    for id in 10..15u128 {
        manager.queue_blob_fetch(id, format!("h{}", id));
    }
    assert_eq!(manager.next_batch(), vec![(10, "h10".to_string()), (11, "h11".to_string())]);
    assert_eq!(manager.next_batch(), vec![(12, "h12".to_string()), (13, "h13".to_string())]);
    assert_eq!(manager.next_batch(), vec![(14, "h14".to_string())]);
    assert!(manager.next_batch().is_empty());
}

#[test]
fn peers_are_registered_and_replaced() {
    let config = P2PConfig::default().unwrap();
    let mut manager = SyncManager::new(
        config,
        vec![
            ("a".to_string(), "http://a:1".to_string()),
            ("b".to_string(), "http://b:1".to_string()),
            ("a".to_string(), "http://a:2".to_string()),
        ],
    );
    assert_eq!(manager.peer_url(&"a".to_string()), Some("http://a:2".to_string()));
    assert_eq!(manager.peer_url(&"b".to_string()), Some("http://b:1".to_string()));
    assert_eq!(manager.peer_url(&"c".to_string()), None);
    manager.add_peer("c".to_string(), "http://c:1".to_string());
    manager.add_peer("b".to_string(), "http://b:9".to_string());
    assert_eq!(manager.peer_url(&"b".to_string()), Some("http://b:9".to_string()));
    let mut ids = manager.peer_ids();
    ids.sort();
    assert_eq!(ids, vec!["a".to_string(), "b".to_string(), "c".to_string()]);
}

#[test]
fn announce_targets_only_known_peers() {
    let manager = SyncManager::new(
        P2PConfig::default().unwrap(),
        vec![("a".to_string(), "http://a".to_string()), ("c".to_string(), "http://c".to_string())],
    );
    let targets = announce_targets(
        &manager,
        &vec!["c".to_string(), "b".to_string(), "a".to_string()],
    );
    assert_eq!(
        targets,
        vec![("c".to_string(), "http://c".to_string()), ("a".to_string(), "http://a".to_string())]
    );
}

#[test]
fn announce_of_existing_blob_is_declined() {
    let mut manager = manager_with(5);
    let reply = handle_announce(&mut manager, BLOB_A, "h".to_string(), true).unwrap();
    assert_eq!(reply.status, SyncStatus::AlreadyExists);
    assert_eq!(reply.message, "Blob already exists");
    assert!(matches!(reply.data, Some(ReplyData::Announce { accepted: false })));
    assert!(manager.next_batch().is_empty());
}

#[test]
fn announce_with_bad_id_is_refused() {
    let mut manager = manager_with(5);
    let reply = handle_announce(&mut manager, "not-a-uuid", "h".to_string(), false);
    assert!(matches!(reply, Err(RequestError::InvalidUuid)));
    assert_eq!(RequestError::InvalidUuid.message(), "Invalid uuid");
    assert!(manager.next_batch().is_empty());
}

#[test]
fn announce_queues_the_blob() {
    let mut manager = manager_with(5);
    let reply = handle_announce(&mut manager, BLOB_A, "h".to_string(), false).unwrap();
    assert_eq!(reply.status, SyncStatus::Success);
    assert_eq!(reply.message, "Blob announcement accepted");
    assert!(matches!(reply.data, Some(ReplyData::Announce { accepted: true })));
    assert_eq!(manager.next_batch(), vec![(BLOB_A_VALUE, "h".to_string())]);
}

#[test]
fn fetch_replies() {
    assert_eq!(fetch_request_id(BLOB_A), Ok(BLOB_A_VALUE));
    assert_eq!(fetch_request_id("zzz"), Err(RequestError::InvalidUuid));

    let missing = handle_fetch(BLOB_A, None, true);
    assert_eq!(missing.status, SyncStatus::NotFound);
    assert_eq!(missing.message, format!("Blob not found: {}", BLOB_A));
    assert!(matches!(missing.data, Some(ReplyData::Fetch { blob: None })));

    let blob = SharedBlob { metadata: sample_metadata(), content: vec![1, 2, 3] };
    let with = handle_fetch(BLOB_A, Some(blob.clone()), true);
    assert_eq!(with.status, SyncStatus::Success);
    assert_eq!(with.message, "Blob fetched successfully");
    match with.data {
        Some(ReplyData::Fetch { blob: Some(sent) }) => {
            assert_eq!(sent.content, vec![1, 2, 3]);
            assert_eq!(sent.metadata.id, BLOB_A);
        },
        _ => panic!("expected a blob"),
    }
    let without = handle_fetch(BLOB_A, Some(blob), false);
    match without.data {
        Some(ReplyData::Fetch { blob: Some(sent) }) => assert!(sent.content.is_empty()),
        _ => panic!("expected a blob"),
    }
}

#[test]
fn delete_status_info_handshake_replies() {
    let gone = handle_delete("x", false);
    assert_eq!(gone.status, SyncStatus::NotFound);
    assert_eq!(gone.message, "Blob not found: x");
    assert!(matches!(gone.data, Some(ReplyData::Delete { deleted: false })));
    let done = handle_delete("x", true);
    assert_eq!(done.status, SyncStatus::Success);
    assert_eq!(done.message, "Blob deleted successfully");
    assert!(matches!(done.data, Some(ReplyData::Delete { deleted: true })));

    let status = handle_sync_status(vec![PeerSyncStatus {
        peer_id: "p".to_string(),
        blob_id: "b".to_string(),
        status: "pending".to_string(),
        last_sync_attempt: None,
        last_successful_sync: None,
    }]);
    assert_eq!(status.message, "Sync status retrieved");
    match status.data {
        Some(ReplyData::Status { peer_statuses }) => assert_eq!(peer_statuses.len(), 1),
        _ => panic!("expected statuses"),
    }

    let mut manager = manager_with(5);
    let info = handle_node_info(&manager, 4, 1024);
    assert_eq!(info.message, "Node info retrieved");
    match info.data {
        Some(ReplyData::NodeInfo { node_id, blob_count, storage_used, capabilities }) => {
            assert_eq!(node_id, "node-1");
            assert_eq!(blob_count, 4);
            assert_eq!(storage_used, 1024);
            assert_eq!(capabilities, vec!["blob_sync".to_string(), "user_auth".to_string()]);
        },
        _ => panic!("expected node info"),
    }

    let shake = handle_handshake(&mut manager, "peer-9".to_string(), "http://p9".to_string());
    assert_eq!(shake.message, "Handshake successful");
    match shake.data {
        Some(ReplyData::Handshake { status, peer_id }) => {
            assert_eq!(status, HandshakeStatus::Acknowledged);
            assert_eq!(peer_id, Some("node-1".to_string()));
        },
        _ => panic!("expected handshake"),
    }
    assert_eq!(manager.peer_url(&"peer-9".to_string()), Some("http://p9".to_string()));

    let invalid = invalid_request_reply();
    assert_eq!(invalid.status, SyncStatus::Error);
    assert_eq!(invalid.message, "Invalid request type");
    let missing = missing_metadata_reply();
    assert_eq!(missing.status, SyncStatus::Error);
    assert_eq!(missing.message, "Missing metadata");
}

#[test]
fn content_hash_is_lowercase_sha256() {
    assert_eq!(
        content_hash(b""),
        "e3b0c44298fc1c149afbf4c8996fb92427ae41e4649b934ca495991b7852b855"
    );
    assert_eq!(
        content_hash(b"abc"),
        "ba7816bf8f01cfea414140de5dae2223b00361a396177a9cb410ff61f20015ad"
    );
    assert_eq!(to_lower_hex(&[0x00, 0xab, 0x0f, 0xf0]), "00ab0ff0");
}

#[test]
fn received_blobs_are_checked_against_their_hash() {
    let expected = content_hash(b"abc");
    assert!(verify_received_blob(b"abc", &"other".to_string(), &expected));
    assert!(verify_received_blob(b"tampered", &expected, &expected));
    assert!(!verify_received_blob(b"tampered", &"other".to_string(), &expected));

    let good = PeerReply::Blob { metadata_hash: Some("x".to_string()), content: b"abc".to_vec() };
    assert!(matches!(fetch_verdict(&good, &expected), FetchVerdict::Store));
    let bad = PeerReply::Blob { metadata_hash: Some("x".to_string()), content: b"abd".to_vec() };
    assert!(matches!(fetch_verdict(&bad, &expected), FetchVerdict::Reject));
    let bare = PeerReply::Blob { metadata_hash: None, content: b"abc".to_vec() };
    assert!(matches!(fetch_verdict(&bare, &expected), FetchVerdict::Skip));
    assert!(matches!(fetch_verdict(&PeerReply::NotFound, &expected), FetchVerdict::MarkFailed));
    assert!(matches!(fetch_verdict(&PeerReply::Failed, &expected), FetchVerdict::MarkFailed));
}

#[test]
fn exit_reports() {
    let done = report_exit("API", Ok(Ok(())));
    assert_eq!(done.level, Level::Info);
    assert_eq!(done.text, "API has exited");
    assert!(done.error.is_none());

    let error = TaskError { message: "boom".to_string(), cause_chain: "Boom".to_string() };
    let failed = report_exit("API", Ok(Err(error.clone())));
    assert_eq!(failed.level, Level::Error);
    assert_eq!(failed.text, "API failed");
    assert_eq!(failed.error.unwrap().message, "boom");

    let aborted = report_exit("API", Err(error));
    assert_eq!(aborted.level, Level::Error);
    assert_eq!(aborted.text, "API' task failed to complete");
}

#[test]
fn bearer_tokens() {
    assert_eq!(bearer_token("Bearer abc.def"), Some("abc.def".to_string()));
    assert_eq!(bearer_token("Bearer "), Some(String::new()));
    assert_eq!(bearer_token("bearer abc"), None);
    assert_eq!(bearer_token("Basic abc"), None);
    assert_eq!(bearer_token("Bear"), None);
}

#[test]
fn session_lasts_seven_days() {
    let claims = session_claims(42, 1_700_000_000);
    assert_eq!(claims.sub, 42);
    assert_eq!(claims.iat, 1_700_000_000);
    assert_eq!(claims.exp, 1_700_000_000 + 7 * 24 * 60 * 60);
    assert_eq!(SESSION_SECONDS, 604800);
}

#[test]
fn delete_permissions() {
    assert!(matches!(authorize_delete(None, Some(1)), Err(ApiError::AuthenticationRequired)));
    assert!(matches!(authorize_delete(Some(1), None), Err(ApiError::BlobNotFound)));
    assert!(matches!(authorize_delete(Some(1), Some(2)), Err(ApiError::PermissionDenied)));
    assert!(authorize_delete(Some(1), Some(1)).is_ok());
    assert_eq!(ApiError::AuthenticationRequired.message(), "Authentication required");
    assert_eq!(ApiError::BlobNotFound.message(), "Blob not found");
    assert_eq!(
        ApiError::PermissionDenied.message(),
        "You don't have permission to delete this blob"
    );
    assert_eq!(ApiError::UserNotFound.message(), "User not found");
    assert_eq!(ApiError::InvalidPassword.message(), "Invalid password");
}

#[test]
fn registered_password_logs_in() {
    let record = password_record("hunter2").unwrap();
    assert!(record.starts_with("$argon2"));
    assert!(check_login(Some(&record), "hunter2").is_ok());
    assert!(matches!(check_login(Some(&record), "hunter3"), Err(ApiError::InvalidPassword)));
    assert!(matches!(check_login(None, "hunter2"), Err(ApiError::UserNotFound)));
    assert!(matches!(
        check_login(Some(&"not a hash".to_string()), "hunter2"),
        Err(ApiError::PasswordHash(_))
    ));
}

#[test]
fn user_blobs_are_encrypted_and_shown() {
    let key = PrivateKey::generate(512).unwrap();
    let stored = key.get_encoded_private_key();
    let keys = UserKeys::import(&stored).unwrap();
    assert_eq!(keys.key().private_key, key.private_key);
    assert_eq!(keys.public_key(), &key.public_key.get_encoded_public_key());

    let blob = keys.encrypt_blob("secret note").unwrap();
    assert_eq!(blob.size, blob.content.len() as i64);
    assert_eq!(blob.hash, content_hash(&blob.content));
    assert_eq!(&blob.public_key, keys.public_key());

    let own = keys.blob_content(&blob.public_key, blob.content.clone()).unwrap();
    assert_eq!(own, "secret note");
    let foreign = keys.blob_content(&"someone else".to_string(), vec![1, 2, 3]).unwrap();
    assert_eq!(foreign, "AQID");
    assert_eq!(encoded_content(&[1, 2, 3]), "AQID");

    assert!(matches!(UserKeys::import("%%%"), Err(CryptoError::Base64Decoding(_))));
}

#[test]
fn cli_values_override_configuration() {
    let base = ServerSettings {
        database_url: "sqlite://file.db".to_string(),
        server_endpoint: "127.0.0.1:8000".to_string(),
        jwt_secret: "file-secret".to_string(),
        node_id: "n".to_string(),
        p2p_listen_addr: "127.0.0.1:50051".to_string(),
        p2p_peers: vec!["http://p".to_string()],
        p2p_sync_interval_secs: 30,
    };
    let cli = CliSettings {
        database_url: Some("sqlite://cli.db".to_string()),
        server_endpoint: None,
        jwt_secret: Some("cli-secret".to_string()),
        config: Some("node.toml".to_string()),
    };
    assert_eq!(config_file_path(None, &cli), Some("node.toml".to_string()));
    assert_eq!(config_file_path(Some("env.toml".to_string()), &cli), Some("env.toml".to_string()));
    let merged = merge_settings(cli, base);
    assert_eq!(merged.database_url, "sqlite://cli.db");
    assert_eq!(merged.server_endpoint, "127.0.0.1:8000");
    assert_eq!(merged.jwt_secret, "cli-secret");
    assert_eq!(merged.node_id, "n");
    assert_eq!(merged.p2p_peers, vec!["http://p".to_string()]);
    assert_eq!(merged.p2p_sync_interval_secs, 30);
}

#[test]
fn batch_queries_and_answers() {
    assert_eq!(batch_placeholders(0), "");
    assert_eq!(batch_placeholders(1), "?");
    assert_eq!(batch_placeholders(3), "?, ?, ?");
    assert_eq!(user_batch_query(2), "SELECT * FROM users WHERE id IN (?, ?)");
    assert_eq!(
        blob_batch_query(1),
        "SELECT * FROM blobs WHERE id IN (?) AND deleted_at IS NULL"
    );
    let answer = assemble_batch(&[1, 2, 3], vec![(3, "c"), (1, "a"), (3, "c2")]);
    assert_eq!(answer.len(), 3);
    assert_eq!(answer[&1], Ok("a"));
    assert_eq!(answer[&2], Err(LoadError::NotFound(2)));
    assert_eq!(answer[&3], Ok("c2"));
}

#[test]
fn api_objects() {
    assert_eq!(Query::api_version(), "1.0");
    let user = User {
        id: 7,
        username: "ann".to_string(),
        password_hash: "h".to_string(),
        private_key: "k".to_string(),
        email: Some("ann@example.com".to_string()),
        created_at: stamp(),
        updated_at: stamp(),
    };
    let shown = UserSchema::new(user);
    assert_eq!(shown.id, 7);
    assert_eq!(shown.username, "ann");
    assert_eq!(shown.email, Some("ann@example.com".to_string()));

    let blob = Blob {
        id: 9,
        content: vec![1, 2, 3],
        metadata: Some("m".to_string()),
        content_type: None,
        size: 3,
        hash: Some("h".to_string()),
        owner_id: 7,
        public_key: "pk".to_string(),
        created_at: stamp(),
        updated_at: stamp(),
        deleted_at: None,
    };
    let encoded = BlobSchema::new(blob.clone());
    assert_eq!(encoded.content, "AQID");
    assert_eq!(encoded.id, 9);
    assert_eq!(encoded.owner_id, 7);
    assert_eq!(encoded.created_at, stamp());
    let plain = BlobSchema::from(blob, "hello".to_string());
    assert_eq!(plain.content, "hello");
    assert_eq!(plain.size, 3);
}

#[test]
fn crypto_error_messages() {
    assert_eq!(CryptoError::InvalidCiphertext.message(), "Invalid ciphertext");
    assert_eq!(CryptoError::PrimeSetup.message(), "Failed to generate private key");
    assert_eq!(CryptoError::InvalidPrivateKey.message(), "Invalid private key");
    assert_eq!(CryptoError::RandomGenerationError.message(), "Random number generation error");
    assert_eq!(
        CryptoError::DecodeDecryptedMessage.message(),
        "Failed to decode decrypted message"
    );
}

fn names(list: &[&str]) -> Vec<String> {
    list.iter().map(|s| s.to_string()).collect()
}

#[test]
fn fetch_tries_peers_until_one_blob_is_kept() {
    let mut fetch = BlobFetch::new(names(&["a", "b", "c", "d"]), false);
    assert_eq!(fetch.next_action(None), FetchAction::MarkPending("a".to_string()));
    assert_eq!(fetch.next_action(None), FetchAction::Ask("a".to_string()));
    assert_eq!(
        fetch.next_action(Some(FetchVerdict::MarkFailed)),
        FetchAction::MarkFailed("a".to_string())
    );
    assert_eq!(fetch.next_action(None), FetchAction::MarkPending("b".to_string()));
    assert_eq!(fetch.next_action(None), FetchAction::Ask("b".to_string()));
    assert_eq!(
        fetch.next_action(Some(FetchVerdict::Reject)),
        FetchAction::MarkFailed("b".to_string())
    );
    assert_eq!(fetch.next_action(None), FetchAction::MarkPending("c".to_string()));
    assert_eq!(fetch.next_action(None), FetchAction::Ask("c".to_string()));
    // no verdict yet: the peer is asked again
    assert_eq!(fetch.next_action(None), FetchAction::Ask("c".to_string()));
    assert_eq!(
        fetch.next_action(Some(FetchVerdict::Skip)),
        FetchAction::Skip("c".to_string())
    );
    assert_eq!(fetch.next_action(None), FetchAction::MarkPending("d".to_string()));
    assert_eq!(fetch.next_action(None), FetchAction::Ask("d".to_string()));
    assert_eq!(
        fetch.next_action(Some(FetchVerdict::Store)),
        FetchAction::Store("d".to_string())
    );
    assert_eq!(fetch.next_action(None), FetchAction::Finish);
    assert_eq!(fetch.next_action(Some(FetchVerdict::Store)), FetchAction::Finish);
}

#[test]
fn fetch_of_a_known_blob_only_marks_peers() {
    let mut fetch = BlobFetch::new(names(&["a", "b"]), true);
    assert_eq!(fetch.next_action(None), FetchAction::MarkPending("a".to_string()));
    assert_eq!(fetch.next_action(Some(FetchVerdict::Store)), FetchAction::MarkPending("b".to_string()));
    assert_eq!(fetch.next_action(None), FetchAction::Finish);
}

#[test]
fn fetch_without_a_good_peer_gives_up() {
    let mut fetch = BlobFetch::new(names(&[]), false);
    assert_eq!(fetch.next_action(None), FetchAction::GiveUp);
    assert_eq!(fetch.next_action(None), FetchAction::Finish);

    let mut fetch = BlobFetch::new(names(&["a"]), false);
    assert_eq!(fetch.next_action(None), FetchAction::MarkPending("a".to_string()));
    assert_eq!(fetch.next_action(None), FetchAction::Ask("a".to_string()));
    assert_eq!(
        fetch.next_action(Some(FetchVerdict::MarkFailed)),
        FetchAction::MarkFailed("a".to_string())
    );
    assert_eq!(fetch.next_action(None), FetchAction::GiveUp);
}

#[test]
fn config_from_random_bytes() {
    let config = P2PConfig::from_random_bytes(&[0u8; 32]);
    assert_eq!(config.node_id, "00000000-0000-4000-8000-000000000000");
    let config = P2PConfig::from_random_bytes(&[0xffu8; 32]);
    assert_eq!(config.node_id, "ffffffff-ffff-4fff-bfff-ffffffffffff");
    assert_eq!(config.listen_addr, "127.0.0.1:50051");
    assert_eq!(config.max_concurrent_syncs, 5);
}

#[test]
fn metadata_and_status_times_are_rfc3339() {
    let blob = Blob {
        id: BLOB_A_VALUE,
        content: vec![1],
        metadata: None,
        content_type: Some("t".to_string()),
        size: 1,
        hash: None,
        owner_id: 1,
        public_key: "pk".to_string(),
        created_at: Timestamp { seconds: 0, nanos: 0 },
        updated_at: Timestamp { seconds: 0, nanos: 0 },
        deleted_at: None,
    };
    let m = blob_metadata(&blob).unwrap();
    assert_eq!(m.id, BLOB_A);
    assert_eq!(m.owner_id, "00000000-0000-0000-0000-000000000001");
    assert_eq!(m.hash, "");
    assert_eq!(m.created_at, "1970-01-01T00:00:00+00:00");
    assert_eq!(m.deleted_at, None);
    let far = Blob { created_at: Timestamp { seconds: i64::MAX, nanos: 0 }, ..blob };
    assert!(blob_metadata(&far).is_none());

    let row = peer_sync_status(
        "p".to_string(),
        "b".to_string(),
        "failed".to_string(),
        Some(Timestamp { seconds: 86400, nanos: 0 }),
        None,
    )
    .unwrap();
    assert_eq!(row.last_sync_attempt, Some("1970-01-02T00:00:00+00:00".to_string()));
    assert_eq!(row.last_successful_sync, None);
}

#[test]
fn received_creation_times() {
    let now = Timestamp { seconds: 1_000, nanos: 7 };
    assert_eq!(
        received_created_at("1970-01-02T01:00:00+01:00", now),
        (86400, 0, 3600)
    );
    assert_eq!(
        received_created_at("2024-01-01T00:00:00.5+00:00", now),
        (1_704_067_200, 500_000_000, 0)
    );
    assert_eq!(received_created_at("yesterday", now), (1_000, 7, 0));
}

#[test]
fn api_error_messages_of_wrapped_errors() {
    assert_eq!(
        ApiError::Crypto(CryptoError::InvalidCiphertext).message(),
        "Invalid ciphertext"
    );
    assert_eq!(ApiError::PasswordHash("bad hash".to_string()).message(), "bad hash");
}
