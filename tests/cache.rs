use cosmoclerk::cache::{listed_dirs, Fetched, Lookup, RegistryCache, Request};
use cosmoclerk::registry::{AssetListRecord, ChainRecord, ChannelRecord, PathRecord};

fn record(name: &str) -> ChainRecord {
    ChainRecord {
        chain_name: name.to_string(),
        chain_id: format!("{}-1", name),
        pretty_name: name.to_string(),
        bech32_prefix: "osmo".to_string(),
        slip44: 118,
        staking_denoms: vec!["uosmo".to_string()],
        rpc: vec![],
        rest: vec![],
        grpc: vec![],
        seeds: vec![],
        persistent_peers: vec![],
        explorers: vec![],
    }
}

#[test]
fn test_fallback_handler_parameters() {
    let mut cache = RegistryCache::new(30);
    assert_eq!(cache.list_chains(0), Lookup::Fetch(Request::ChainNames));
}

#[test]
fn chain_is_fetched_once_within_ttl() {
    let mut cache = RegistryCache::new(30);
    let first = cache.get_chain("osmosis", 1000);
    assert_eq!(first, Lookup::Fetch(Request::Chain { key: "osmosis".to_string(), fallback: false }));
    let got = cache.chain_fetched("osmosis", false, Fetched::Found(record("osmosis")), 1000);
    assert_eq!(got, Lookup::Ready(record("osmosis")));
    assert_eq!(cache.get_chain("osmosis", 1000 + 60), Lookup::Ready(record("osmosis")));
    assert_eq!(cache.get_chain("osmosis", 1000 + 30 * 60 - 1), Lookup::Ready(record("osmosis")));
}

#[test]
fn chain_is_fetched_again_after_ttl() {
    let mut cache = RegistryCache::new(30);
    cache.chain_fetched("osmosis", false, Fetched::Found(record("osmosis")), 1000);
    let after = cache.get_chain("osmosis", 1000 + 30 * 60);
    assert_eq!(after, Lookup::Fetch(Request::Chain { key: "osmosis".to_string(), fallback: false }));
    assert!(matches!(cache.get_chain("osmosis", 1000), Lookup::Fetch(_)));
}

#[test]
fn zero_ttl_always_misses() {
    let mut cache = RegistryCache::new(0);
    cache.chain_fetched("juno", false, Fetched::Found(record("juno")), 5);
    assert!(matches!(cache.get_chain("juno", 5), Lookup::Fetch(_)));
}

#[test]
fn chain_falls_back_to_testnets() {
    let mut cache = RegistryCache::new(30);
    assert!(matches!(cache.get_chain("foo", 10), Lookup::Fetch(_)));
    let next = cache.chain_fetched("foo", false, Fetched::Missing, 10);
    assert_eq!(next, Lookup::Fetch(Request::Chain { key: "testnets/foo".to_string(), fallback: true }));
    let done = cache.chain_fetched("foo", true, Fetched::Found(record("footestnet")), 11);
    assert_eq!(done, Lookup::Ready(record("footestnet")));
    assert_eq!(cache.get_chain("foo", 12), Lookup::Ready(record("footestnet")));
}

#[test]
fn missing_and_failed_are_not_cached() {
    let mut cache = RegistryCache::new(30);
    assert_eq!(cache.chain_fetched("bar", true, Fetched::Missing, 10), Lookup::Missing);
    assert!(matches!(cache.get_chain("bar", 10), Lookup::Fetch(_)));
    let failed = cache.chain_fetched("bar", false, Fetched::Failed("timeout".to_string()), 10);
    assert_eq!(failed, Lookup::Failed("timeout".to_string()));
    assert!(matches!(cache.get_chain("bar", 11), Lookup::Fetch(_)));
}

#[test]
fn assets_fall_back_to_testnets() {
    let mut cache = RegistryCache::new(30);
    let next = cache.assets_fetched("foo", false, Fetched::Missing, 10);
    assert_eq!(next, Lookup::Fetch(Request::Assets { key: "testnets/foo".to_string(), fallback: true }));
    let list = AssetListRecord { chain_name: "foo".to_string(), assets: vec![] };
    assert_eq!(cache.assets_fetched("foo", true, Fetched::Found(list.clone()), 10), Lookup::Ready(list.clone()));
    assert_eq!(cache.get_assets("foo", 20), Lookup::Ready(list));
}

#[test]
fn path_key_ignores_order() {
    let mut cache = RegistryCache::new(30);
    let path = PathRecord {
        chain_1: "cosmoshub".to_string(),
        chain_2: "osmosis".to_string(),
        channels: vec![ChannelRecord { channel_1: "channel-141".to_string(), channel_2: "channel-0".to_string() }],
    };
    assert_eq!(
        cache.get_path("osmosis", "cosmoshub", 5),
        Lookup::Fetch(Request::Path { chain_a: "osmosis".to_string(), chain_b: "cosmoshub".to_string() })
    );
    cache.path_fetched("osmosis", "cosmoshub", Fetched::Found(path.clone()), 5);
    assert_eq!(cache.get_path("cosmoshub", "osmosis", 6), Lookup::Ready(path.clone()));
    assert_eq!(cache.get_path("osmosis", "cosmoshub", 6), Lookup::Ready(path));
    assert!(matches!(cache.get_path("osmosis", "juno", 6), Lookup::Fetch(_)));
}

#[test]
fn chain_listing_drops_testnets_directory() {
    let mut cache = RegistryCache::new(30);
    let names = vec!["osmosis".to_string(), "testnets".to_string(), "juno".to_string()];
    let got = cache.chain_names_fetched(Ok(names), 1);
    let want = vec!["osmosis".to_string(), "juno".to_string()];
    assert_eq!(got, Lookup::Ready(want.clone()));
    assert_eq!(cache.list_chains(2), Lookup::Ready(want));
    assert_eq!(cache.list_testnets(2), Lookup::Fetch(Request::TestnetListing));
}

#[test]
fn testnet_listing_keeps_visible_directories() {
    let doc = r#"[
        {"name": "osmosistestnet", "type": "dir"},
        {"name": "_template", "type": "dir"},
        {"name": ".github", "type": "dir"},
        {"name": "README.md", "type": "file"},
        {"type": "dir"},
        {"name": "junotestnet", "type": "dir"}
    ]"#;
    assert_eq!(listed_dirs(doc), Some(vec!["osmosistestnet".to_string(), "junotestnet".to_string()]));
    assert_eq!(listed_dirs("not json"), None);
    assert_eq!(listed_dirs("[]"), Some(Vec::new()));
    let mut cache = RegistryCache::new(30);
    let got = cache.testnets_fetched(Ok(doc.to_string()), 3);
    assert_eq!(got, Lookup::Ready(vec!["osmosistestnet".to_string(), "junotestnet".to_string()]));
    let failed = cache.testnets_fetched(Err("offline".to_string()), 3);
    assert_eq!(failed, Lookup::Failed("offline".to_string()));
}

#[test]
fn testnet_listing_that_is_not_an_array_is_not_cached() {
    let mut cache = RegistryCache::new(30);
    let limited = r#"{"message": "API rate limit exceeded"}"#;
    assert!(matches!(cache.testnets_fetched(Ok(limited.to_string()), 3), Lookup::Failed(_)));
    assert_eq!(cache.list_testnets(4), Lookup::Fetch(Request::TestnetListing));
    assert!(matches!(cache.testnets_fetched(Ok("<html>".to_string()), 5), Lookup::Failed(_)));
    assert_eq!(cache.list_testnets(6), Lookup::Fetch(Request::TestnetListing));
}
