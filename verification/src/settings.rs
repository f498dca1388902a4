use vstd::prelude::*;

verus! {

/// Networking section of the core configuration.
#[derive(Clone, Debug)]
pub struct NetworkingConfig {
    /// Local UDP port the client binds (0 lets the OS choose).
    pub client_port: u16,
    /// Identifier of the netcode protocol version.
    pub protocol_id: u64,
    /// Steam application id used by the Steam transport.
    pub steam_app_id: u32,
}

/// Logging section of the core configuration.
#[derive(Clone, Debug)]
pub struct LoggingConfig {
    /// Name of the default log level ("trace", "debug", "info", "warn", "error").
    pub default_level: String,
    /// Per-target filter directives.
    pub filter: String,
}

/// The parts of the core configuration that the networking and logging
/// setup read.
#[derive(Clone, Debug)]
pub struct GameCoreConfig {
    pub networking: NetworkingConfig,
    pub logging: LoggingConfig,
}

/// Settings shared by client and server to authenticate a netcode session.
#[derive(Copy, Clone, Debug)]
pub struct SharedSettings {
    /// An id to identify the protocol version
    pub protocol_id: u64,
    /// a 32-byte array to authenticate via the Netcode.io protocol
    pub private_key: [u8; 32],
}

/// The client port configured for the local socket.
pub fn client_port_from_config(config: &GameCoreConfig) -> (port: u16)
    ensures
        port == config.networking.client_port,
{
    config.networking.client_port
}

/// Shared netcode settings: the configured protocol id and an all-zero key.
pub fn shared_settings_from_config(config: &GameCoreConfig) -> (s: SharedSettings)
    ensures
        s.protocol_id == config.networking.protocol_id,
        forall|i: int| 0 <= i < 32 ==> #[trigger] s.private_key@[i] == 0u8,
        s.private_key@.len() == 32,
{
    SharedSettings { protocol_id: config.networking.protocol_id, private_key: [0u8; 32] }
}

/// The Steam application id configured for the Steam transport.
pub fn steam_app_id_from_config(config: &GameCoreConfig) -> (id: u32)
    ensures
        id == config.networking.steam_app_id,
{
    config.networking.steam_app_id
}

} // verus!
