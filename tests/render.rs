use cosmoclerk::queries::{denom_trace, denom_trace_url, pool_url, price_id, price_url, response_text, trace_text};
use cosmoclerk::registry::{AssetListRecord, AssetRecord, ChainRecord, DenomUnit, Endpoint, Explorer, Peer};
use cosmoclerk::cache::Lookup;
use cosmoclerk::render::{
    chain_info_text, chain_menu, chain_not_found_text, chain_page, chain_page_update, endpoints_text,
    explorers_text, filter_network, notice_render, page_or_failure, peer_nodes_text,
    query_render, ready_or_problem, Button, PAGE_SIZE,
};
use cosmoclerk::session::{Notice, PoolAction};

fn names(n: usize) -> Vec<String> {
    (0..n).map(|i| format!("chain{:02}", i)).collect()
}

fn labels(row: &[Button]) -> Vec<String> {
    row.iter().map(|b| b.label.clone()).collect()
}

#[test]
fn test_keyboard_button_creation() {
    let chains: Vec<String> = vec!["osmosis", "juno", "axelar", "stride", "noble"].into_iter().map(String::from).collect();
    let page = chain_page(&chains, 0, false, &None);
    assert_eq!(page.buttons.len(), 3);
    assert_eq!(labels(&page.buttons[0]), vec!["osmosis", "juno", "axelar"]);
    assert_eq!(page.buttons[0][0].data, "select:osmosis");
    assert_eq!(labels(&page.buttons[1]), vec!["stride", "noble"]);
    assert_eq!(labels(&page.buttons[2]), vec!["Show Testnets"]);
    assert_eq!(page.buttons[2][0].data, "toggle_testnet:true");
    assert_eq!(page.text, "Type a chain name, or select from menu:");
}

#[test]
fn pages_split_and_navigate() {
    let chains = names(40);
    assert_eq!(PAGE_SIZE, 18);
    let first = chain_page(&chains, 0, false, &None);
    assert_eq!(first.buttons.len(), 6 + 2);
    assert_eq!(labels(&first.buttons[6]), vec!["Next →"]);
    assert_eq!(first.buttons[6][0].data, "page:1");
    let middle = chain_page(&chains, 1, false, &None);
    assert_eq!(labels(&middle.buttons[0]), vec!["chain18", "chain19", "chain20"]);
    assert_eq!(labels(&middle.buttons[6]), vec!["← Previous", "Next →"]);
    assert_eq!(middle.buttons[6][0].data, "page:0");
    assert_eq!(middle.buttons[6][1].data, "page:2");
    let last = chain_page(&chains, 2, false, &None);
    assert_eq!(last.buttons.len(), 2 + 2);
    assert_eq!(labels(&last.buttons[0]), vec!["chain36", "chain37", "chain38"]);
    assert_eq!(labels(&last.buttons[1]), vec!["chain39"]);
    assert_eq!(labels(&last.buttons[2]), vec!["← Previous"]);
    let past = chain_page(&chains, 7, false, &None);
    assert_eq!(past.buttons.len(), 2);
    assert_eq!(labels(&past.buttons[0]), vec!["← Previous"]);
    assert_eq!(past.buttons[0][0].data, "page:6");
}

#[test]
fn empty_list_has_only_toggle() {
    let page = chain_page(&vec![], 0, true, &None);
    assert_eq!(page.buttons.len(), 1);
    assert_eq!(labels(&page.buttons[0]), vec!["Show Mainnets"]);
    assert_eq!(page.buttons[0][0].data, "toggle_testnet:false");
    assert_eq!(page.text, "Type a chain name, or select from menu:");
}

#[test]
fn updated_pages_and_marked_chain() {
    let chains: Vec<String> = vec!["osmosis", "juno", "osmosistestnet"].into_iter().map(String::from).collect();
    let main = chain_page_update(&chains, 0, false, &Some("juno".to_string()));
    assert_eq!(main.text, "Select a chain:");
    assert_eq!(labels(&main.buttons[0]), vec!["osmosis", "🔴 juno"]);
    assert_eq!(main.buttons[0][1].data, "select:juno");
    let test = chain_page_update(&chains, 0, true, &None);
    assert_eq!(test.text, "Select a testnet:");
    assert_eq!(labels(&test.buttons[0]), vec!["osmosistestnet"]);
}

#[test]
fn outcomes_become_messages() {
    let failed = page_or_failure(&None, 0, false, &None, true);
    assert_eq!(failed.text, "The lookup failed. Please try again later.");
    assert!(failed.buttons.is_empty());
    let listed = page_or_failure(&Some(vec!["juno".to_string()]), 0, false, &None, true);
    assert_eq!(listed.text, "Select a chain:");
    assert_eq!(ready_or_problem("foo", Lookup::Ready(1u8)), Ok(1u8));
    assert_eq!(ready_or_problem("foo", Lookup::<u8>::Missing).unwrap_err().text, "Chain foo not found");
    assert_eq!(
        ready_or_problem("foo", Lookup::<u8>::Failed("x".to_string())).unwrap_err().text,
        "The lookup failed. Please try again later."
    );
    assert_eq!(query_render(&Some("{}".to_string())).text, "{}");
    assert_eq!(query_render(&None).text, "The lookup failed. Please try again later.");
    assert_eq!(notice_render(Notice::NoHealthyRest).text, "No healthy REST endpoint found for this chain");
}

#[test]
fn network_filter_splits_testnets() {
    let chains: Vec<String> = vec!["osmosis", "cosmoshub", "juno", "osmosistestnet"].into_iter().map(String::from).collect();
    assert_eq!(filter_network(&chains, true), vec!["osmosistestnet".to_string()]);
    assert_eq!(filter_network(&chains, false).len(), 3);
    let page = chain_page(&chains, 0, true, &None);
    assert_eq!(labels(&page.buttons[0]), vec!["osmosistestnet"]);
}

#[test]
fn menu_hides_ibc_for_testnets() {
    let main = chain_menu("osmosis");
    assert_eq!(main.text, "Selected: osmosis\n\nChoose an action:");
    assert_eq!(main.buttons.len(), 6);
    assert_eq!(main.buttons[2][0].data, "action:ibc_id");
    let test = chain_menu("osmosistestnet");
    assert_eq!(test.buttons.len(), 5);
    assert_eq!(test.buttons[4][0].data, "back:chains");
}

fn record() -> ChainRecord {
    ChainRecord {
        chain_name: "osmosis".to_string(),
        chain_id: "osmosis-1".to_string(),
        pretty_name: "Osmosis".to_string(),
        bech32_prefix: "osmo".to_string(),
        slip44: 118,
        staking_denoms: vec!["uosmo".to_string()],
        rpc: vec![Endpoint { address: "https://rpc.osmosis.zone".to_string(), provider: Some("Osmosis Foundation".to_string()) }],
        rest: vec![Endpoint { address: "https://lcd.osmosis.zone".to_string(), provider: None }],
        grpc: vec![],
        seeds: vec![Peer { id: "abc".to_string(), address: "seed.example:26656".to_string(), provider: Some("seeder".to_string()) }],
        persistent_peers: vec![Peer { id: "def".to_string(), address: "peer.example:26656".to_string(), provider: None }],
        explorers: vec![Explorer { kind: "mintscan".to_string(), url: "https://www.mintscan.io/osmosis".to_string() }],
    }
}

fn assets() -> AssetListRecord {
    AssetListRecord {
        chain_name: "osmosis".to_string(),
        assets: vec![AssetRecord {
            base: "uosmo".to_string(),
            symbol: "OSMO".to_string(),
            coingecko_id: "osmosis".to_string(),
            denom_units: vec![
                DenomUnit { denom: "uosmo".to_string(), exponent: 0 },
                DenomUnit { denom: "osmo".to_string(), exponent: 6 },
            ],
        }],
    }
}

#[test]
fn chain_info_lists_fields() {
    let text = chain_info_text(&record(), &assets(), &Some("https://rpc.osmosis.zone".to_string()), &None);
    assert_eq!(
        text,
        "🔗 *Osmosis*\n\nChain ID: `osmosis\\-1`\nChain Name: `osmosis`\nRPC: `https://rpc\\.osmosis\\.zone`\nREST: `Unknown`\nAddress Prefix: `osmo`\nBase Denom: `uosmo`\nCointype: `118`\nDecimals: `6`\nBlock Explorer: `https://www\\.mintscan\\.io/osmosis`"
    );
}

#[test]
fn peer_and_endpoint_displays() {
    let peers = peer_nodes_text(&record());
    assert_eq!(
        peers,
        "*Seed Nodes*\n\\-\\-\\-\\-\\-\\-\\-\\-\\-\\-\n*seeder*:\nid: `abc`\nURL: `seed\\.example:26656`\n\n\n*Persistent Peers*\n\\-\\-\\-\\-\\-\\-\\-\\-\\-\\-\\-\\-\\-\\-\\-\nid: `def`\nURL: `peer\\.example:26656`\n\n"
    );
    let eps = endpoints_text(&record());
    assert!(eps.starts_with("*RPC*\n\\-\\-\\-\n*Osmosis Foundation*:\n`https://rpc\\.osmosis\\.zone`\n\n"));
    assert!(eps.contains("*unknown*:\n`https://lcd\\.osmosis\\.zone`"));
    assert!(eps.ends_with("\n*GRPC*\n\\-\\-\\-\\-\n"));
    let ex = explorers_text(&record());
    assert!(ex.ends_with("*mintscan*:\n`https://www\\.mintscan\\.io/osmosis`\n\n"));
    assert_eq!(chain_not_found_text("foo"), "Chain foo not found");
}

#[test]
fn displays_list_at_most_five() {
    let mut r = record();
    r.rpc = (0..8).map(|i| Endpoint { address: format!("https://rpc{}.example", i), provider: None }).collect();
    let eps = endpoints_text(&r);
    assert!(eps.contains("rpc4"));
    assert!(!eps.contains("rpc5"));
}

#[test]
fn denom_trace_reading() {
    assert_eq!(
        denom_trace_url("https://lcd.osmosis.zone/", "ABC123"),
        "https://lcd.osmosis.zone/ibc/apps/transfer/v1/denom_traces/ABC123"
    );
    let doc = r#"{"denom_trace":{"path":"transfer/channel-0","base_denom":"uatom"}}"#;
    let trace = denom_trace(doc, "ABC123");
    assert_eq!(trace, Some(("transfer/channel-0".to_string(), "uatom".to_string())));
    assert_eq!(trace_text(&trace), "Path: transfer/channel-0\nBase Denomination: uatom");
    let base = denom_trace("{}", "ABC123");
    assert_eq!(base, Some((String::new(), "ABC123".to_string())));
    assert_eq!(trace_text(&base), "Base Denomination: ABC123");
    assert_eq!(denom_trace("not json", "ABC123"), None);
    assert_eq!(trace_text(&None), "Failed to fetch IBC denom trace");
}

#[test]
fn pool_and_price_queries() {
    assert_eq!(
        pool_url("https://lcd.osmosis.zone", PoolAction::Info, 1),
        "https://lcd.osmosis.zone/osmosis/poolmanager/v1beta1/pools/1"
    );
    assert_eq!(
        pool_url("https://lcd.osmosis.zone/", PoolAction::Incentives, 678),
        "https://lcd.osmosis.zone/osmosis/pool-incentives/v1beta1/gauge-ids/678"
    );
    assert_eq!(price_id(&assets(), "osmo"), Some("osmosis".to_string()));
    assert_eq!(price_id(&assets(), "ATOM"), None);
    assert_eq!(price_url("osmosis"), "https://api.coingecko.com/api/v3/simple/price?ids=osmosis&vs_currencies=usd");
    let long = "x".repeat(5000);
    assert_eq!(response_text(&long).chars().count(), 3500);
    assert_eq!(response_text("{}"), "{}");
}
