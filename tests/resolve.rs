use ton_kafka_producer::config::{
    AppConfig, KafkaConfig, KafkaProducerConfig, NodeConfig, SaslConfig, SecurityConfig,
    StatesConfig,
};
use ton_kafka_producer::net::{Ipv4Address, SocketAddress, SocketAddressV4};
use ton_kafka_producer::paths::join;
use ton_kafka_producer::resolve::{
    old_blocks_policy, resolve_node_config, Action, ConfigError, Event, OldBlocksPolicy,
    ResolvedNodeConfig, Resolver, Stage, Step,
};
use ton_kafka_producer::yaml::{default_logger_settings, logger_settings_from_str};

fn ip(a: u8, b: u8, c: u8, d: u8) -> Ipv4Address {
    Ipv4Address { a, b, c, d }
}

fn run(
    config: NodeConfig,
    lookup: Option<Ipv4Address>,
    keys: Result<u32, String>,
    storage: Result<(), String>,
) -> (Vec<Action>, Result<ResolvedNodeConfig<u32>, ConfigError>) {
    let mut actions = Vec::new();
    let mut resolver = Resolver::new(config);
    let mut keys = Some(keys);
    let mut storage = Some(storage);
    loop {
        let action = resolver.action();
        let event = match &action {
            Action::LookUpPublicAddress => Event::AddressLookedUp(lookup),
            Action::LoadKeys { .. } => Event::KeysLoaded(keys.take().unwrap()),
            Action::CreateDirAll { .. } => Event::StorageCreated(storage.take().unwrap()),
        };
        actions.push(action);
        assert!(resolver.accepts_event(&event));
        match resolver.step(event) {
            Step::Next(next) => resolver = next,
            Step::Done(c) => return (actions, Ok(c)),
            Step::Failed(e) => return (actions, Err(e)),
        }
    }
}

#[test]
fn node_config_defaults() {
    let c = NodeConfig::with_memory_budget(1 << 30);
    assert_eq!(c.adnl_public_ip, None);
    assert_eq!(c.adnl_port, 30303);
    assert_eq!(c.db_path, "db");
    assert_eq!(c.temp_keys_path, "adnl-keys.json");
    assert_eq!(c.max_db_memory_usage, 1 << 30);
    assert_eq!(c.parallel_archive_downloads, 16);
    assert_eq!(c.start_from, None);
}

#[test]
fn sync_policy_from_start() {
    assert_eq!(old_blocks_policy(None), OldBlocksPolicy::Ignore);
    assert_eq!(old_blocks_policy(Some(0)), OldBlocksPolicy::Sync { from_seqno: 0 });
    assert_eq!(
        old_blocks_policy(Some(u32::MAX)),
        OldBlocksPolicy::Sync { from_seqno: u32::MAX }
    );
}

#[test]
fn resolved_config_carries_settings() {
    let mut c = NodeConfig::with_memory_budget(1000);
    c.adnl_port = 4000;
    c.db_path = "/var/lib/relay".to_string();
    c.parallel_archive_downloads = 3;
    c.start_from = Some(12345);
    let r = resolve_node_config(c, ip(1, 2, 3, 4), 7u8);
    assert_eq!(r.ip_address, SocketAddressV4 { ip: ip(1, 2, 3, 4), port: 4000 });
    assert_eq!(r.adnl_keys, 7);
    assert_eq!(r.rocks_db_path, "/var/lib/relay/rocksdb");
    assert_eq!(r.file_db_path, "/var/lib/relay/files");
    assert!(!r.state_gc_enabled);
    assert!(!r.blocks_gc_enabled);
    assert!(r.shard_state_cache_enabled);
    assert!(!r.archives_enabled);
    assert_eq!(r.old_blocks_policy, OldBlocksPolicy::Sync { from_seqno: 12345 });
    assert_eq!(r.max_db_memory_usage, 1000);
    assert_eq!(r.parallel_archive_downloads, 3);
}

#[test]
fn storage_paths_under_db_dir() {
    let r = resolve_node_config(NodeConfig::with_memory_budget(1), ip(0, 0, 0, 0), ());
    assert_eq!(r.rocks_db_path, "db/rocksdb");
    assert_eq!(r.file_db_path, "db/files");
    assert_eq!(r.old_blocks_policy, OldBlocksPolicy::Ignore);
}

#[test]
fn join_edge_cases() {
    assert_eq!(join(&"a/".to_string(), "files"), "a/files");
    assert_eq!(join(&"".to_string(), "files"), "files");
    assert_eq!(join(&"/".to_string(), "rocksdb"), "/rocksdb");
    assert_eq!(join(&"a/b".to_string(), "rocksdb"), "a/b/rocksdb");
}

#[test]
fn configured_address_skips_lookup() {
    let mut c = NodeConfig::with_memory_budget(1);
    c.adnl_public_ip = Some(ip(10, 0, 0, 1));
    let (actions, result) = run(c, None, Ok(5), Ok(()));
    assert_eq!(actions.len(), 2);
    assert!(!actions.iter().any(|a| matches!(a, Action::LookUpPublicAddress)));
    match &actions[0] {
        Action::LoadKeys { path, force_regenerate } => {
            assert_eq!(path, "adnl-keys.json");
            assert!(!force_regenerate);
        }
        _ => panic!("keys are loaded first"),
    }
    match &actions[1] {
        Action::CreateDirAll { path } => assert_eq!(path, "db"),
        _ => panic!("storage is prepared second"),
    }
    let r = result.unwrap();
    assert_eq!(r.ip_address, SocketAddressV4 { ip: ip(10, 0, 0, 1), port: 30303 });
    assert_eq!(r.adnl_keys, 5);
}

#[test]
fn missing_address_fails_before_side_effects() {
    let c = NodeConfig::with_memory_budget(1);
    let (actions, result) = run(c, None, Ok(5), Ok(()));
    assert_eq!(actions.len(), 1);
    assert!(matches!(actions[0], Action::LookUpPublicAddress));
    assert!(matches!(result, Err(ConfigError::PublicAddressUnavailable)));
}

#[test]
fn discovered_address_is_used() {
    let c = NodeConfig::with_memory_budget(1);
    let (actions, result) = run(c, Some(ip(8, 8, 4, 4)), Ok(1), Ok(()));
    assert_eq!(actions.len(), 3);
    assert_eq!(result.unwrap().ip_address.ip, ip(8, 8, 4, 4));
}

#[test]
fn key_store_failure_is_reported() {
    let c = NodeConfig::with_memory_budget(1);
    let (actions, result) = run(c, Some(ip(1, 1, 1, 1)), Err("bad key file".to_string()), Ok(()));
    assert_eq!(actions.len(), 2);
    match result {
        Err(ConfigError::IdentityLoadFailed(m)) => assert_eq!(m, "bad key file"),
        _ => panic!("expected IdentityLoadFailed"),
    }
}

#[test]
fn storage_failure_is_reported() {
    let c = NodeConfig::with_memory_budget(1);
    let (actions, result) = run(c, Some(ip(1, 1, 1, 1)), Ok(1), Err("read-only".to_string()));
    assert_eq!(actions.len(), 3);
    match result {
        Err(ConfigError::StoragePrepFailed(m)) => assert_eq!(m, "read-only"),
        _ => panic!("expected StoragePrepFailed"),
    }
}

#[test]
fn resolver_rejects_unasked_events() {
    let r: Resolver<u32> = Resolver::new(NodeConfig::with_memory_budget(1));
    assert!(matches!(r.stage, Stage::LookUpAddress));
    assert!(!r.accepts_event(&Event::KeysLoaded(Ok(1))));
    assert!(!r.accepts_event(&Event::StorageCreated(Ok(()))));
    assert!(r.accepts_event(&Event::AddressLookedUp(None)));
}

#[test]
fn default_logger_settings_parse() {
    let v = default_logger_settings().unwrap();
    let m = v.as_mapping().unwrap();
    let key = serde_yaml::Value::String("appenders".to_string());
    assert!(m.contains_key(&key));
    let root = &v["root"]["level"];
    assert_eq!(root.as_str(), Some("error"));
    assert_eq!(v["loggers"]["ton_kafka_producer"]["level"].as_str(), Some("info"));
}

#[test]
fn malformed_logger_settings_fail() {
    assert!(matches!(
        logger_settings_from_str("a: [1, 2"),
        Err(ConfigError::ConfigParseFailed(_))
    ));
    let v = logger_settings_from_str("level: warn").unwrap();
    assert_eq!(v["level"].as_str(), Some("warn"));
}

#[test]
fn kafka_defaults_are_empty() {
    let k = KafkaConfig::default();
    let p = &k.raw_transaction_producer;
    assert_eq!(p.topic, "");
    assert_eq!(p.brokers, "");
    assert_eq!(p.message_timeout_ms, None);
    assert_eq!(p.message_max_size, None);
    assert_eq!(p.attempt_interval_ms, 0);
    assert!(p.security_config.is_none());
}

#[test]
fn test() {
    let mut config = AppConfig {
        rpc_config: None,
        node_settings: NodeConfig::with_memory_budget(1),
        kafka_settings: KafkaConfig::default(),
        logger_settings: serde_yaml::Value::Null,
    };
    config.rpc_config = Some(StatesConfig {
        address: SocketAddress::V4(SocketAddressV4 { ip: ip(0, 0, 0, 0), port: 8081 }),
    });
    config.kafka_settings = KafkaConfig::default();
    let mut kafka_conf = KafkaProducerConfig::default();
    kafka_conf.security_config = Some(SecurityConfig::Sasl(SaslConfig::default()));
    config.kafka_settings.raw_transaction_producer = kafka_conf;
    match &config.rpc_config {
        Some(StatesConfig { address: SocketAddress::V4(a) }) => assert_eq!(a.port, 8081),
        _ => panic!("state address is IPv4"),
    }
    assert!(matches!(
        config.kafka_settings.raw_transaction_producer.security_config,
        Some(SecurityConfig::Sasl(_))
    ));
}

#[test]
fn sasl_settings_keep_their_strings() {
    let sasl = SaslConfig {
        security_protocol: "SASL_SSL".to_string(),
        ssl_ca_location: "/etc/ca.pem".to_string(),
        sasl_mechanism: "PLAIN".to_string(),
        sasl_username: "user".to_string(),
        sasl_password: "pass".to_string(),
    };
    let copy = SecurityConfig::Sasl(sasl).clone();
    let SecurityConfig::Sasl(s) = copy;
    assert_eq!(s.security_protocol, "SASL_SSL");
    assert_eq!(s.ssl_ca_location, "/etc/ca.pem");
    assert_eq!(s.sasl_mechanism, "PLAIN");
    assert_eq!(s.sasl_username, "user");
    assert_eq!(s.sasl_password, "pass");
}
