//! The declarative configuration, as a user writes it.

use vstd::prelude::*;

use crate::net::{Ipv4Address, SocketAddress};

verus! {

/// The listen port used when none is configured.
pub const DEFAULT_ADNL_PORT: u16 = 30303;

/// The number of archives downloaded side by side when none is configured.
pub const DEFAULT_PARALLEL_ARCHIVE_DOWNLOADS: u32 = 16;

/// Network and storage settings of the node.
#[derive(Clone, Debug)]
pub struct NodeConfig {
    /// The node's public address; discovered at startup when absent.
    pub adnl_public_ip: Option<Ipv4Address>,
    /// The node's listen port.
    pub adnl_port: u16,
    /// The database directory.
    pub db_path: String,
    /// The identity key file; new keys are generated there when it does not exist.
    pub temp_keys_path: String,
    /// The storage memory budget, in bytes.
    pub max_db_memory_usage: usize,
    /// How many archives are downloaded side by side.
    pub parallel_archive_downloads: u32,
    /// The block sequence number from which history is synchronised; history
    /// before the current head is ignored when absent.
    pub start_from: Option<u32>,
}

impl NodeConfig {
    /// Whether these are the default settings for the given memory budget.
    pub open spec fn is_default_for(self, max_db_memory_usage: usize) -> bool {
        &&& self.adnl_public_ip is None
        &&& self.adnl_port == DEFAULT_ADNL_PORT
        &&& self.db_path@ == "db"@
        &&& self.temp_keys_path@ == "adnl-keys.json"@
        &&& self.max_db_memory_usage == max_db_memory_usage
        &&& self.parallel_archive_downloads == DEFAULT_PARALLEL_ARCHIVE_DOWNLOADS
        &&& self.start_from is None
    }

    /// The default settings, with the given storage memory budget (by default
    /// one third of the machine's memory, which only the host can tell).
    pub fn with_memory_budget(max_db_memory_usage: usize) -> (r: NodeConfig)
        ensures
            r.is_default_for(max_db_memory_usage),
    {
        NodeConfig {
            adnl_public_ip: None,
            adnl_port: DEFAULT_ADNL_PORT,
            db_path: String::from_str("db"),
            temp_keys_path: String::from_str("adnl-keys.json"),
            max_db_memory_usage,
            parallel_archive_downloads: DEFAULT_PARALLEL_ARCHIVE_DOWNLOADS,
            start_from: None,
        }
    }
}

/// Where the read-only state-serving endpoint binds.
#[derive(Clone, Copy, Debug)]
pub struct StatesConfig {
    pub address: SocketAddress,
}

/// Message-queue settings.
#[derive(Clone, Debug, Default)]
pub struct KafkaConfig {
    pub raw_transaction_producer: KafkaProducerConfig,
}

/// Settings of the producer of raw transactions. The default is an empty
/// producer, which does nothing useful until configured.
#[derive(Clone, Debug, Default)]
pub struct KafkaProducerConfig {
    pub topic: String,
    pub brokers: String,
    pub message_timeout_ms: Option<u32>,
    pub message_max_size: Option<usize>,
    pub attempt_interval_ms: u64,
    pub security_config: Option<SecurityConfig>,
}

/// Transport security of the message queue.
#[derive(Clone, Debug)]
pub enum SecurityConfig {
    Sasl(SaslConfig),
}

/// SASL authentication settings.
#[derive(Clone, Debug, Default)]
pub struct SaslConfig {
    pub security_protocol: String,
    pub ssl_ca_location: String,
    pub sasl_mechanism: String,
    pub sasl_username: String,
    pub sasl_password: String,
}

/// The whole configuration of the relay.
pub struct AppConfig {
    /// Settings of the state-serving endpoint, if states are served.
    pub rpc_config: Option<StatesConfig>,
    /// Settings of the node.
    pub node_settings: NodeConfig,
    /// Settings of the message queue.
    pub kafka_settings: KafkaConfig,
    /// Settings of the logging backend, passed through as a document.
    pub logger_settings: serde_yaml::Value,
}

} // verus!
