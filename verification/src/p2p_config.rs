//! Settings of the peer-to-peer side of a node.

use crate::errors::CryptoError;
use crate::ids::{hyphenated, hyphenated_text, is_random_uuid, uuid_from_random, uuid_text, with_random_uuid_bits};
use crate::keypair::get_secure_random_bytes;
use vstd::prelude::*;

verus! {

/// Settings of the peer-to-peer side of a node.
#[derive(Debug, Clone)]
pub struct P2PConfig {
    pub node_id: String,
    pub listen_addr: String,
    pub peers: Vec<String>,
    pub sync_interval_secs: u64,
    pub max_concurrent_syncs: usize,
    pub max_blob_size: usize,
}

/// The address a node listens on unless told otherwise.
pub const DEFAULT_LISTEN_ADDR: &'static str = "127.0.0.1:50051";

impl P2PConfig {
    /// The default settings with the node id made of 32 random bytes: listening on
    /// `127.0.0.1:50051`, no peers, a sync every minute, at most five blobs fetched at once
    /// and blobs of up to 10 MiB.
    pub fn from_random_bytes(random: &[u8; 32]) -> (config: Self)
        ensures
            config.node_id@ == hyphenated_text(with_random_uuid_bits(random@.take(16))),
            exists|id: u128| is_random_uuid(id) && config.node_id@ == #[trigger] hyphenated(id),
            config.listen_addr@ == DEFAULT_LISTEN_ADDR@,
            config.peers@.len() == 0,
            config.sync_interval_secs == 60,
            config.max_concurrent_syncs == 5,
            config.max_blob_size == 10 * 1024 * 1024,
    {
        let id = uuid_from_random(random);
        let node_id = uuid_text(id);
        assert(is_random_uuid(id) && node_id@ == hyphenated(id));
        P2PConfig {
            node_id,
            listen_addr: String::from_str(DEFAULT_LISTEN_ADDR),
            peers: Vec::new(),
            sync_interval_secs: 60,
            max_concurrent_syncs: 5,
            max_blob_size: 10 * 1024 * 1024,
        }
    }

    /// The default settings, with a fresh random node id.
    pub fn default() -> (config: Result<Self, CryptoError>)
        ensures
            config matches Ok(c) ==> (exists|id: u128| is_random_uuid(id) && c.node_id@ == #[trigger] hyphenated(id))
                && c.listen_addr@ == DEFAULT_LISTEN_ADDR@ && c.peers@.len() == 0
                && c.sync_interval_secs == 60 && c.max_concurrent_syncs == 5 && c.max_blob_size
                == 10 * 1024 * 1024,
            config matches Err(e) ==> e is RandomGenerationError,
    {
        let random = match get_secure_random_bytes() {
            Ok(random) => random,
            Err(e) => return Err(e),
        };
        Ok(P2PConfig::from_random_bytes(&random))
    }

    /// The same settings with `peers` as the peer addresses.
    pub fn with_peers(self, peers: Vec<String>) -> (config: Self)
        ensures
            config == (P2PConfig { peers, ..self }),
    {
        let mut config = self;
        config.peers = peers;
        config
    }

    /// The same settings with `node_id` as the node's id.
    pub fn with_node_id(self, node_id: String) -> (config: Self)
        ensures
            config == (P2PConfig { node_id, ..self }),
    {
        let mut config = self;
        config.node_id = node_id;
        config
    }

    /// The same settings with `addr` as the listen address.
    pub fn with_listen_addr(self, addr: String) -> (config: Self)
        ensures
            config == (P2PConfig { listen_addr: addr, ..self }),
    {
        let mut config = self;
        config.listen_addr = addr;
        config
    }

    /// The same settings with a sync every `secs` seconds.
    pub fn with_sync_interval(self, secs: u64) -> (config: Self)
        ensures
            config == (P2PConfig { sync_interval_secs: secs, ..self }),
    {
        let mut config = self;
        config.sync_interval_secs = secs;
        config
    }
}

} // verus!
