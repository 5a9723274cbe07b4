//! ElGamal encryption of byte strings and the decision logic of a data-availability node.

pub mod natural;
pub mod prime_field;
pub mod b64;
pub mod errors;
pub mod types;
pub mod keypair;
pub mod codec;
pub mod text;
pub mod elgamal;
pub mod digest;
pub mod ids;
pub mod p2p_config;
pub mod sync_manager;
pub mod blob_sync;
pub mod replies;
pub mod accounts;
pub mod blobs;
pub mod settings;
pub mod exit;
pub mod api;
pub mod loader;
