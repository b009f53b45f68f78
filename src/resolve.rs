//! Resolution of the node settings into the engine's runtime configuration.
//!
//! Resolution runs in stages, each of which needs one piece of outside work:
//! the public address is looked up (unless it is configured), the identity
//! keys are loaded or created, and the database directory is created. The
//! [`Resolver`] decides; its caller performs the [`Action`] that the resolver
//! asks for and hands back the [`Event`] that came of it.

use vstd::prelude::*;

use crate::config::NodeConfig;
use crate::net::{Ipv4Address, SocketAddressV4};
use crate::paths::{join, join_path};

verus! {

/// Which blocks older than the current head the engine synchronises.
#[derive(Clone, Copy, Debug, PartialEq, Eq, Structural)]
pub enum OldBlocksPolicy {
    /// History before the current head is ignored.
    Ignore,
    /// History is synchronised from the given sequence number onward.
    Sync { from_seqno: u32 },
}

/// The policy that a configured starting point asks for.
pub open spec fn policy_for(start_from: Option<u32>) -> OldBlocksPolicy {
    match start_from {
        None => OldBlocksPolicy::Ignore,
        Some(n) => OldBlocksPolicy::Sync { from_seqno: n },
    }
}

/// The policy for the configured starting point `start_from`.
pub fn old_blocks_policy(start_from: Option<u32>) -> (r: OldBlocksPolicy)
    ensures
        r == policy_for(start_from),
{
    match start_from {
        None => OldBlocksPolicy::Ignore,
        Some(n) => OldBlocksPolicy::Sync { from_seqno: n },
    }
}

/// Why the configuration could not be resolved. Each of these aborts startup.
#[derive(Clone, Debug)]
pub enum ConfigError {
    /// No public address is configured and none could be discovered.
    PublicAddressUnavailable,
    /// The identity keys could not be loaded, generated or stored.
    IdentityLoadFailed(String),
    /// The database directory could not be created.
    StoragePrepFailed(String),
    /// The configuration source is malformed.
    ConfigParseFailed(String),
}

/// The engine's runtime configuration, with identity keys of type `K`.
pub struct ResolvedNodeConfig<K> {
    /// The address the node announces and binds.
    pub ip_address: SocketAddressV4,
    /// The node's identity keys.
    pub adnl_keys: K,
    /// Where blocks and transactions are stored.
    pub rocks_db_path: String,
    /// Where auxiliary files are stored.
    pub file_db_path: String,
    /// Whether old states are collected; off until that is fully tested.
    pub state_gc_enabled: bool,
    /// Whether old blocks are collected; off until that is fully tested.
    pub blocks_gc_enabled: bool,
    /// Whether the shard state cache runs, with the engine's default options.
    pub shard_state_cache_enabled: bool,
    /// Whether block archives are kept.
    pub archives_enabled: bool,
    /// Which history is synchronised.
    pub old_blocks_policy: OldBlocksPolicy,
    /// The storage memory budget, in bytes.
    pub max_db_memory_usage: usize,
    /// How many archives are downloaded side by side.
    pub parallel_archive_downloads: u32,
}

impl<K> ResolvedNodeConfig<K> {
    /// Whether this is what `config` resolves to, given the public address
    /// `ip` and the identity keys `keys`.
    pub open spec fn resolves(self, config: NodeConfig, ip: Ipv4Address, keys: K) -> bool {
        &&& self.ip_address == (SocketAddressV4 { ip, port: config.adnl_port })
        &&& self.adnl_keys == keys
        &&& self.rocks_db_path@ == join_path(config.db_path@, "rocksdb"@)
        &&& self.file_db_path@ == join_path(config.db_path@, "files"@)
        &&& !self.state_gc_enabled
        &&& !self.blocks_gc_enabled
        &&& self.shard_state_cache_enabled
        &&& !self.archives_enabled
        &&& self.old_blocks_policy == policy_for(config.start_from)
        &&& self.max_db_memory_usage == config.max_db_memory_usage
        &&& self.parallel_archive_downloads == config.parallel_archive_downloads
    }
}

/// Builds the runtime configuration from the node settings, the public
/// address and the identity keys.
pub fn resolve_node_config<K>(config: NodeConfig, ip: Ipv4Address, keys: K) -> (r:
    ResolvedNodeConfig<K>)
    ensures
        r.resolves(config, ip, keys),
{
    let rocks_db_path = join(&config.db_path, "rocksdb");
    let file_db_path = join(&config.db_path, "files");
    ResolvedNodeConfig {
        ip_address: SocketAddressV4::new(ip, config.adnl_port),
        adnl_keys: keys,
        rocks_db_path,
        file_db_path,
        state_gc_enabled: false,
        blocks_gc_enabled: false,
        shard_state_cache_enabled: true,
        archives_enabled: false,
        old_blocks_policy: old_blocks_policy(config.start_from),
        max_db_memory_usage: config.max_db_memory_usage,
        parallel_archive_downloads: config.parallel_archive_downloads,
    }
}

/// The stage that a resolution has reached: what it still needs.
pub enum Stage<K> {
    /// The public address is to be discovered.
    LookUpAddress,
    /// The address is known; the identity keys are to be loaded or created.
    LoadKeys { ip: Ipv4Address },
    /// Address and keys are known; the database directory is to be created.
    PrepareStorage { ip: Ipv4Address, keys: K },
}

/// Outside work that a resolution asks its caller to perform.
#[derive(Clone, Debug)]
pub enum Action {
    /// Ask the address-discovery service for this host's public IPv4 address.
    LookUpPublicAddress,
    /// Load the identity keys stored at `path`, or generate and store new ones
    /// there when it does not exist (or when `force_regenerate` is set).
    LoadKeys { path: String, force_regenerate: bool },
    /// Create the directory `path` and all its parents.
    CreateDirAll { path: String },
}

/// What came of an [`Action`].
pub enum Event<K> {
    /// The address-discovery service answered with this address, or with none.
    AddressLookedUp(Option<Ipv4Address>),
    /// The key store returned these keys, or failed with this message.
    KeysLoaded(Result<K, String>),
    /// The database directory was created, or could not be, for this reason.
    StorageCreated(Result<(), String>),
}

/// The result of handing an event to a resolution.
pub enum Step<K> {
    /// The resolution goes on.
    Next(Resolver<K>),
    /// The resolution is complete.
    Done(ResolvedNodeConfig<K>),
    /// The resolution failed.
    Failed(ConfigError),
}

/// A resolution of `config` in progress.
pub struct Resolver<K> {
    pub config: NodeConfig,
    pub stage: Stage<K>,
}

/// The event that an action of the stage `stage` gives, where the address
/// lookup answers `lookup`, the key store `keys` and the directory creation
/// `storage`.
pub open spec fn event_at<K>(
    stage: Stage<K>,
    lookup: Option<Ipv4Address>,
    keys: Result<K, String>,
    storage: Result<(), String>,
) -> Event<K> {
    match stage {
        Stage::LookUpAddress => Event::AddressLookedUp(lookup),
        Stage::LoadKeys { .. } => Event::KeysLoaded(keys),
        Stage::PrepareStorage { .. } => Event::StorageCreated(storage),
    }
}

impl<K> Resolver<K> {
    /// A resolution of `config` that has not begun: it starts by looking up
    /// the public address only where none is configured.
    pub open spec fn initial(config: NodeConfig) -> Resolver<K> {
        Resolver {
            config,
            stage: match config.adnl_public_ip {
                Some(ip) => Stage::LoadKeys { ip },
                None => Stage::LookUpAddress,
            },
        }
    }

    /// Whether `a` is the action that this resolution asks for. Keys are never
    /// regenerated on purpose: that option is not exposed.
    pub open spec fn requests(self, a: Action) -> bool {
        match self.stage {
            Stage::LookUpAddress => a is LookUpPublicAddress,
            Stage::LoadKeys { .. } => match a {
                Action::LoadKeys { path, force_regenerate } => path@ == self.config.temp_keys_path@
                    && !force_regenerate,
                _ => false,
            },
            Stage::PrepareStorage { .. } => match a {
                Action::CreateDirAll { path } => path@ == self.config.db_path@,
                _ => false,
            },
        }
    }

    /// Whether `e` answers the action that this resolution asks for.
    pub open spec fn accepts(self, e: Event<K>) -> bool {
        match self.stage {
            Stage::LookUpAddress => e is AddressLookedUp,
            Stage::LoadKeys { .. } => e is KeysLoaded,
            Stage::PrepareStorage { .. } => e is StorageCreated,
        }
    }

    /// The stage that the event `e` leads to, where the resolution goes on.
    pub open spec fn next_stage(self, e: Event<K>) -> Option<Stage<K>> {
        match (self.stage, e) {
            (Stage::LookUpAddress, Event::AddressLookedUp(Some(ip))) => Some(
                Stage::LoadKeys { ip },
            ),
            (Stage::LoadKeys { ip }, Event::KeysLoaded(Ok(keys))) => Some(
                Stage::PrepareStorage { ip, keys },
            ),
            _ => None,
        }
    }

    /// The error that the event `e` ends the resolution with, where it fails.
    pub open spec fn failure(self, e: Event<K>) -> Option<ConfigError> {
        match e {
            Event::AddressLookedUp(None) => Some(ConfigError::PublicAddressUnavailable),
            Event::KeysLoaded(Err(m)) => Some(ConfigError::IdentityLoadFailed(m)),
            Event::StorageCreated(Err(m)) => Some(ConfigError::StoragePrepFailed(m)),
            _ => None,
        }
    }

    /// The stages that a resolution of `config` goes through, one action
    /// each, where the outside work answers `lookup`, `keys` and `storage`.
    pub open spec fn stages(
        config: NodeConfig,
        lookup: Option<Ipv4Address>,
        keys: Result<K, String>,
        storage: Result<(), String>,
    ) -> Seq<Stage<K>> {
        let r0 = Self::initial(config);
        let s0 = r0.stage;
        match r0.next_stage(event_at(s0, lookup, keys, storage)) {
            None => seq![s0],
            Some(s1) => match (Resolver { config, stage: s1 }).next_stage(
                event_at(s1, lookup, keys, storage),
            ) {
                None => seq![s0, s1],
                Some(s2) => match (Resolver { config, stage: s2 }).next_stage(
                    event_at(s2, lookup, keys, storage),
                ) {
                    None => seq![s0, s1, s2],
                    Some(s3) => seq![s0, s1, s2, s3],
                },
            },
        }
    }

    /// Begins the resolution of `config`.
    pub fn new(config: NodeConfig) -> (r: Resolver<K>)
        ensures
            r == Self::initial(config),
    {
        let stage = match config.adnl_public_ip {
            Some(ip) => Stage::LoadKeys { ip },
            None => Stage::LookUpAddress,
        };
        Resolver { config, stage }
    }

    /// The action that this resolution needs performed next.
    pub fn action(&self) -> (a: Action)
        ensures
            self.requests(a),
    {
        match &self.stage {
            Stage::LookUpAddress => Action::LookUpPublicAddress,
            Stage::LoadKeys { .. } => Action::LoadKeys {
                path: self.config.temp_keys_path.clone(),
                force_regenerate: false,
            },
            Stage::PrepareStorage { .. } => Action::CreateDirAll {
                path: self.config.db_path.clone(),
            },
        }
    }

    /// Whether `e` answers the action that this resolution asks for.
    pub fn accepts_event(&self, e: &Event<K>) -> (r: bool)
        ensures
            r == self.accepts(*e),
    {
        match &self.stage {
            Stage::LookUpAddress => matches!(e, Event::AddressLookedUp(_)),
            Stage::LoadKeys { .. } => matches!(e, Event::KeysLoaded(_)),
            Stage::PrepareStorage { .. } => matches!(e, Event::StorageCreated(_)),
        }
    }

    /// Takes the event `e`, which answers the action asked for, and goes on,
    /// completes or fails.
    pub fn step(self, e: Event<K>) -> (r: Step<K>)
        requires
            self.accepts(e),
        ensures
            (r is Next) == (self.next_stage(e) is Some),
            (r is Failed) == (self.failure(e) is Some),
            match r {
                Step::Next(n) => n.config == self.config && self.next_stage(e) == Some(n.stage),
                Step::Failed(err) => self.failure(e) == Some(err),
                Step::Done(c) => match self.stage {
                    Stage::PrepareStorage { ip, keys } => c.resolves(self.config, ip, keys),
                    _ => false,
                },
            },
    {
        let config = self.config;
        match (self.stage, e) {
            (Stage::LookUpAddress, Event::AddressLookedUp(found)) => match found {
                Some(ip) => Step::Next(Resolver { config, stage: Stage::LoadKeys { ip } }),
                None => Step::Failed(ConfigError::PublicAddressUnavailable),
            },
            (Stage::LoadKeys { ip }, Event::KeysLoaded(loaded)) => match loaded {
                Ok(keys) => Step::Next(Resolver { config, stage: Stage::PrepareStorage { ip, keys } }),
                Err(m) => Step::Failed(ConfigError::IdentityLoadFailed(m)),
            },
            (Stage::PrepareStorage { ip, keys }, Event::StorageCreated(created)) => match created {
                Ok(()) => Step::Done(resolve_node_config(config, ip, keys)),
                Err(m) => Step::Failed(ConfigError::StoragePrepFailed(m)),
            },
            // ruled out by `requires`: the event answers the stage's action
            _ => Step::Failed(ConfigError::PublicAddressUnavailable),
        }
    }
}

/// The sync policy follows the configured starting point: history is
/// ignored where there is none, and synchronised from exactly `n` where it is `n`.
pub proof fn lemma_sync_policy_follows_start<K>(
    c: ResolvedNodeConfig<K>,
    config: NodeConfig,
    ip: Ipv4Address,
    keys: K,
)
    requires
        c.resolves(config, ip, keys),
    ensures
        config.start_from is None ==> c.old_blocks_policy == OldBlocksPolicy::Ignore,
        forall|n: u32|
            config.start_from == Some(n) ==> c.old_blocks_policy == (OldBlocksPolicy::Sync {
                from_seqno: n,
            }),
{
}

/// The storage directories are `X/rocksdb` and `X/files`, where `X` is the
/// configured database directory (written without a trailing separator).
pub proof fn lemma_storage_paths<K>(
    c: ResolvedNodeConfig<K>,
    config: NodeConfig,
    ip: Ipv4Address,
    keys: K,
)
    requires
        c.resolves(config, ip, keys),
        config.db_path@.len() > 0,
        config.db_path@.last() != '/',
    ensures
        c.rocks_db_path@ == config.db_path@ + "/rocksdb"@,
        c.file_db_path@ == config.db_path@ + "/files"@,
{
    reveal_strlit("rocksdb");
    reveal_strlit("/rocksdb");
    reveal_strlit("files");
    reveal_strlit("/files");
    assert(c.rocks_db_path@ =~= config.db_path@ + "/rocksdb"@);
    assert(c.file_db_path@ =~= config.db_path@ + "/files"@);
}

/// A configured public address is used as it is: no stage of the resolution
/// asks the address-discovery service, whatever the outside work answers.
pub proof fn lemma_configured_address_never_looked_up<K>(
    config: NodeConfig,
    lookup: Option<Ipv4Address>,
    keys: Result<K, String>,
    storage: Result<(), String>,
)
    requires
        config.adnl_public_ip is Some,
    ensures
        forall|i: int|
            0 <= i < Resolver::<K>::stages(config, lookup, keys, storage).len() ==> !(
            #[trigger] Resolver::<K>::stages(config, lookup, keys, storage)[i] is LookUpAddress),
        forall|a: Action| #[trigger]
            Resolver::<K>::initial(config).requests(a) ==> !(a is LookUpPublicAddress),
        Resolver::<K>::initial(config).stage == (Stage::<K>::LoadKeys {
            ip: config.adnl_public_ip->Some_0,
        }),
{
}

/// Where no public address is configured, the address-discovery service is
/// asked exactly once, before anything else.
pub proof fn lemma_address_looked_up_once<K>(
    config: NodeConfig,
    lookup: Option<Ipv4Address>,
    keys: Result<K, String>,
    storage: Result<(), String>,
)
    requires
        config.adnl_public_ip is None,
    ensures
        Resolver::<K>::stages(config, lookup, keys, storage)[0] is LookUpAddress,
        forall|i: int|
            0 < i < Resolver::<K>::stages(config, lookup, keys, storage).len() ==> !(
            #[trigger] Resolver::<K>::stages(config, lookup, keys, storage)[i] is LookUpAddress),
{
}

/// Where no public address is configured and none is discovered, the
/// resolution fails with `PublicAddressUnavailable` after the lookup alone:
/// neither the key store nor the file system is touched.
pub proof fn lemma_missing_address_fails_first<K>(
    config: NodeConfig,
    keys: Result<K, String>,
    storage: Result<(), String>,
)
    requires
        config.adnl_public_ip is None,
    ensures
        Resolver::<K>::stages(config, None, keys, storage) == seq![Stage::<K>::LookUpAddress],
        Resolver::<K>::initial(config).failure(Event::AddressLookedUp(None)) == Some(
            ConfigError::PublicAddressUnavailable,
        ),
{
}

} // verus!
