use shard_store::builder::{
    format_u64, replica_pools, replica_role, shard_pools, Config, ReplicaConfig, ShardConfig,
    StoreBuilder,
};

fn replica(host: &str, weight: usize) -> ReplicaConfig {
    ReplicaConfig {
        connection: format!("postgresql://u:p@{}/db", host),
        pool_size: 5,
        weight,
    }
}

fn shard_cfg(name: &str, weight: usize, replicas: Vec<ReplicaConfig>) -> ShardConfig {
    ShardConfig {
        name: name.to_string(),
        connection: format!("postgresql://u:p@{}.example.com/db", name),
        pool_size: 10,
        weight,
        replicas,
    }
}

#[test]
fn decimal_formatting_is_exact() {
    assert_eq!(format_u64(0), "0");
    assert_eq!(format_u64(7), "7");
    assert_eq!(format_u64(10), "10");
    assert_eq!(format_u64(12345), "12345");
    assert_eq!(format_u64(u64::MAX), "18446744073709551615");
}

#[test]
fn replica_roles_are_one_indexed() {
    assert_eq!(replica_role(0), "replica1");
    assert_eq!(replica_role(1), "replica2");
    assert_eq!(replica_role(9), "replica10");
}

#[test]
fn weights_follow_pool_creation_order() {
    let cfg = shard_cfg("primary", 3, vec![replica("r1", 7), replica("r2", 1), replica("r3", 9)]);
    let (pools, weights) = replica_pools(&cfg);
    assert_eq!(pools.len(), 3);
    assert_eq!(weights, vec![3, 7, 1, 9]);
}

#[test]
fn a_shard_without_replicas_keeps_its_own_weight() {
    let cfg = shard_cfg("primary", 4, Vec::new());
    let (pools, weights) = replica_pools(&cfg);
    assert!(pools.is_empty());
    assert_eq!(weights, vec![4]);
}

#[test]
fn shard_pools_cover_every_configured_shard() {
    let config = Config {
        shards: vec![
            shard_cfg("primary", 2, vec![replica("r1", 5)]),
            shard_cfg("aux", 3, Vec::new()),
        ],
        chains: Vec::new(),
    };
    let all = shard_pools(&config);
    assert_eq!(all.len(), 2);
    assert_eq!(all[0].shard.as_str(), "primary");
    assert_eq!(all[0].weights, vec![2, 5]);
    assert_eq!(all[0].replicas.len(), 1);
    assert_eq!(all[1].shard.as_str(), "aux");
    assert_eq!(all[1].weights, vec![3]);
    assert!(all[1].replicas.is_empty());
}

#[test]
fn builder_creates_one_main_pool_per_shard() {
    let config = Config {
        shards: vec![shard_cfg("primary", 1, Vec::new()), shard_cfg("aux", 2, Vec::new())],
        chains: Vec::new(),
    };
    let builder = StoreBuilder::new(&config);
    assert_eq!(builder.main_pools().len(), 2);
    let details = builder.connection_details().unwrap();
    assert_eq!(details.len(), 2);
    assert_eq!(details[0].name, "shard_primary");
    assert_eq!(details[1].name, "shard_aux");
    assert_eq!(details[1].host, "aux.example.com");
}

#[test]
fn connection_details_fail_on_a_bad_url() {
    let mut bad = shard_cfg("aux", 1, Vec::new());
    bad.connection = "postgresql://missing-things".to_string();
    let config = Config { shards: vec![shard_cfg("primary", 1, Vec::new()), bad], chains: Vec::new() };
    let builder = StoreBuilder::new(&config);
    assert!(builder.connection_details().is_err());
}

#[test]
fn mapped_chains_resolve_to_their_shard() {
    let config = Config {
        shards: vec![shard_cfg("primary", 1, Vec::new()), shard_cfg("aux", 1, Vec::new())],
        chains: vec![("mainnet".to_string(), "aux".to_string())],
    };
    let builder = StoreBuilder::new(&config);
    assert_eq!(builder.chain_shard("mainnet").as_str(), "aux");
}

#[test]
fn unmapped_chains_fall_back_to_the_primary_shard() {
    let config = Config {
        shards: vec![shard_cfg("primary", 1, Vec::new())],
        chains: vec![("mainnet".to_string(), "aux".to_string())],
    };
    let builder = StoreBuilder::new(&config);
    assert_eq!(builder.chain_shard("testnet").as_str(), "primary");
}

#[test]
fn networks_resolve_in_input_order() {
    let config = Config {
        shards: vec![shard_cfg("primary", 1, Vec::new()), shard_cfg("aux", 1, Vec::new())],
        chains: vec![("mainnet".to_string(), "aux".to_string())],
    };
    let builder = StoreBuilder::new(&config);
    let resolved = builder.resolve_networks(&vec!["mainnet".to_string(), "testnet".to_string()]);
    assert_eq!(resolved.len(), 2);
    assert_eq!(resolved[0].0, "mainnet");
    assert_eq!(resolved[0].1.as_str(), "aux");
    assert_eq!(resolved[1].0, "testnet");
    assert_eq!(resolved[1].1.as_str(), "primary");
}

#[test]
fn primary_pool_is_found_among_the_main_pools() {
    let config = Config {
        shards: vec![shard_cfg("aux", 1, Vec::new()), shard_cfg("primary", 1, Vec::new())],
        chains: Vec::new(),
    };
    let builder = StoreBuilder::new(&config);
    let pool = builder.primary_pool();
    assert_eq!(pool.shard().as_str(), "primary");
}
