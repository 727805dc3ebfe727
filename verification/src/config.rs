//! Client configuration: the immutable value that describes the server
//! endpoint, credentials, identifiers, intervals, and the command policy.
use vstd::prelude::*;
use vstd::string::*;

verus! {

/// Static allow-list gating which inbound command kinds may execute.
#[derive(Debug, Clone, Copy, PartialEq, Eq, Structural)]
pub struct RemoteCommandsConfig {
    pub lock_screen_enabled: bool,
    pub shutdown_enabled: bool,
}

/// Immutable configuration for one client instance. Created once at startup
/// and never mutated afterwards; cloned into every task that needs it.
#[derive(Debug, Clone)]
pub struct RemoteControlConfig {
    pub enabled: bool,
    pub server_url: String,
    pub auth_token: String,
    pub client_id: String,
    pub reconnect_interval_secs: u64,
    pub heartbeat_interval_secs: u64,
    pub commands: RemoteCommandsConfig,
}

impl Default for RemoteControlConfig {
    fn default() -> (c: Self)
        ensures
            c.enabled == true,
            c.server_url@ == "ws://localhost:8000/ws"@,
            c.auth_token@ == "default-auth-token"@,
            c.client_id@ == Seq::<char>::empty(),
            c.reconnect_interval_secs == 30,
            c.heartbeat_interval_secs == 30,
            c.commands.lock_screen_enabled == true,
            c.commands.shutdown_enabled == true,
    {
        RemoteControlConfig {
            enabled: true,
            server_url: String::from_str("ws://localhost:8000/ws"),
            auth_token: String::from_str("default-auth-token"),
            client_id: String::new(),
            reconnect_interval_secs: 30,
            heartbeat_interval_secs: 30,
            commands: RemoteCommandsConfig { lock_screen_enabled: true, shutdown_enabled: true },
        }
    }
}

/// The default configuration with the discovered host identifier filled in
/// as the client id. Host-identifier discovery itself is the caller's
/// concern; this function only assembles the configuration value.
pub fn get_remote_control_config(client_id: String) -> (c: RemoteControlConfig)
    ensures
        c.enabled == true,
        c.server_url@ == "ws://localhost:8000/ws"@,
        c.auth_token@ == "default-auth-token"@,
        c.client_id@ == client_id@,
        c.reconnect_interval_secs == 30,
        c.heartbeat_interval_secs == 30,
        c.commands.lock_screen_enabled == true,
        c.commands.shutdown_enabled == true,
{
    let mut c = RemoteControlConfig::default();
    c.client_id = client_id;
    c
}

/// The connection target: the server URL with the auth token and client id
/// passed query-parameter style, so the handshake itself authenticates.
pub fn connect_url(config: &RemoteControlConfig) -> (r: String)
    ensures
        r@ == config.server_url@ + "?token="@ + config.auth_token@ + "&client_id="@
            + config.client_id@,
{
    let mut r = config.server_url.clone();
    r.append("?token=");
    r.append(config.auth_token.as_str());
    r.append("&client_id=");
    r.append(config.client_id.as_str());
    r
}

} // verus!
