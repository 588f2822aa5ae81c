//! Application configuration: the settings of the messenger and their defaults.
//!
//! Loading from `presidium.toml` and `PRESIDIUM_` environment variables is done
//! outside the verified library; here are the settings themselves and the
//! values used when a source leaves a setting out.

use vstd::prelude::*;
use vstd::string::StringExecFns;

verus! {

/// Root configuration of the messenger.
#[derive(Debug, Clone)]
pub struct AppConfig {
    /// Network settings (P2P, relay, discovery).
    pub network: NetworkConfig,
    /// Storage settings.
    pub storage: StorageConfig,
    /// Cryptography settings.
    pub crypto: CryptoConfig,
    /// On-device model settings.
    pub llm: LlmConfig,
}

/// Network settings.
#[derive(Debug, Clone)]
pub struct NetworkConfig {
    /// Listen address for incoming P2P connections.
    pub listen_addr: String,
    /// Bootstrap nodes for the initial DHT discovery.
    pub bootstrap_nodes: Vec<String>,
    /// Whether mDNS local discovery is on.
    pub mdns_enabled: bool,
    /// Relay settings for NAT traversal.
    pub relay: RelayConfig,
}

/// Relay settings for NAT traversal.
#[derive(Debug, Clone)]
pub struct RelayConfig {
    /// Whether circuit relay v2 is on.
    pub enabled: bool,
    /// Maximum number of relay connections.
    pub max_connections: usize,
}

/// Storage settings.
#[derive(Debug, Clone)]
pub struct StorageConfig {
    /// Path of the database directory.
    pub database_path: String,
    /// Maximum database size in megabytes.
    pub max_size_mb: usize,
}

/// Cryptography settings.
#[derive(Debug, Clone)]
pub struct CryptoConfig {
    /// The key exchange protocol.
    pub key_exchange_protocol: String,
    /// Whether post-quantum key agreement is on.
    pub post_quantum_enabled: bool,
}

/// On-device model settings.
#[derive(Debug, Clone)]
pub struct LlmConfig {
    /// Path of the GGUF model file, if any.
    pub model_path: Option<String>,
    /// Quantization level.
    pub quantization: String,
    /// Whether GPU/NPU acceleration is on.
    pub hardware_acceleration: bool,
}

/// Default listen address: any IPv4 interface, a port chosen by the system.
pub fn default_listen_addr() -> (r: String)
    ensures
        r@ == "/ip4/0.0.0.0/tcp/0"@,
{
    String::from_str("/ip4/0.0.0.0/tcp/0")
}

/// Default for the boolean switches: on.
pub fn default_true() -> (r: bool)
    ensures
        r,
{
    true
}

/// Default maximum number of relay connections.
pub fn default_max_relay_connections() -> (r: usize)
    ensures
        r == 16,
{
    16
}

/// Default database path.
pub fn default_db_path() -> (r: String)
    ensures
        r@ == "./data/presidium.db"@,
{
    String::from_str("./data/presidium.db")
}

/// Default maximum database size in megabytes.
pub fn default_max_db_size_mb() -> (r: usize)
    ensures
        r == 512,
{
    512
}

/// Default key exchange protocol.
pub fn default_kex_protocol() -> (r: String)
    ensures
        r@ == "PQXDH"@,
{
    String::from_str("PQXDH")
}

/// Default quantization level.
pub fn default_quantization() -> (r: String)
    ensures
        r@ == "q4"@,
{
    String::from_str("q4")
}

impl Default for RelayConfig {
    fn default() -> (r: Self)
        ensures
            r.enabled,
            r.max_connections == 16,
    {
        RelayConfig { enabled: true, max_connections: default_max_relay_connections() }
    }
}

impl Default for LlmConfig {
    fn default() -> (r: Self)
        ensures
            r.model_path is None,
            r.quantization@ == "q4"@,
            r.hardware_acceleration,
    {
        LlmConfig { model_path: None, quantization: default_quantization(), hardware_acceleration: true }
    }
}

} // verus!
