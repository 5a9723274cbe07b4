//! Settings of a node: what the command line gives, what the configuration file and
//! environment give, and how the two combine.

use vstd::prelude::*;

verus! {

/// Settings given on the command line (or in the matching environment variables).
#[derive(Debug, Clone)]
pub struct CliSettings {
    /// Location of the database.
    pub database_url: Option<String>,
    /// URL of the server to connect to.
    pub server_endpoint: Option<String>,
    /// Secret that session tokens are signed with.
    pub jwt_secret: Option<String>,
    /// Path to the configuration file.
    pub config: Option<String>,
}

/// Settings read from the configuration file and the `APP_` environment variables.
#[derive(Debug, Clone)]
pub struct ServerSettings {
    pub database_url: String,
    pub server_endpoint: String,
    pub jwt_secret: String,
    pub node_id: String,
    pub p2p_listen_addr: String,
    pub p2p_peers: Vec<String>,
    pub p2p_sync_interval_secs: u64,
}

/// The configuration file to read: the one named by the `CONF_FILE` environment variable
/// (`from_env`) if set, otherwise the one named on the command line. The file must exist
/// exactly when one is named.
pub fn config_file_path(from_env: Option<String>, cli: &CliSettings) -> (path: Option<String>)
    ensures
        path == match from_env {
            Some(p) => Some(p),
            None => cli.config,
        },
{
    match from_env {
        Some(p) => Some(p),
        None => cli.config.clone(),
    }
}

/// The settings a node runs with: each value given on the command line replaces the one
/// from the configuration; everything else comes from the configuration.
pub fn merge_settings(cli: CliSettings, base: ServerSettings) -> (settings: ServerSettings)
    ensures
        settings.database_url == match cli.database_url {
            Some(v) => v,
            None => base.database_url,
        },
        settings.server_endpoint == match cli.server_endpoint {
            Some(v) => v,
            None => base.server_endpoint,
        },
        settings.jwt_secret == match cli.jwt_secret {
            Some(v) => v,
            None => base.jwt_secret,
        },
        settings.node_id == base.node_id,
        settings.p2p_listen_addr == base.p2p_listen_addr,
        settings.p2p_peers == base.p2p_peers,
        settings.p2p_sync_interval_secs == base.p2p_sync_interval_secs,
{
    let jwt_secret = match cli.jwt_secret {
        Some(secret) => secret,
        None => base.jwt_secret,
    };
    let database_url = match cli.database_url {
        Some(v) => v,
        None => base.database_url,
    };
    let server_endpoint = match cli.server_endpoint {
        Some(v) => v,
        None => base.server_endpoint,
    };
    ServerSettings {
        database_url,
        server_endpoint,
        jwt_secret,
        node_id: base.node_id,
        p2p_listen_addr: base.p2p_listen_addr,
        p2p_peers: base.p2p_peers,
        p2p_sync_interval_secs: base.p2p_sync_interval_secs,
    }
}

} // verus!
