use cosmoclerk::health::{after_probe, first_probe, is_recent, probe_url, probe_verdict, ProbeKind, ProbeResponse, Selection};
use cosmoclerk::registry::Endpoint;

fn ep(address: &str) -> Endpoint {
    Endpoint { address: address.to_string(), provider: None }
}

fn run(endpoints: &Vec<Endpoint>, verdicts: &[bool]) -> Option<String> {
    let mut step = first_probe(endpoints, ProbeKind::Rpc);
    loop {
        match step {
            Selection::Probe { index, .. } => step = after_probe(endpoints, ProbeKind::Rpc, index, verdicts[index]),
            Selection::Chosen(a) => return Some(a),
            Selection::Exhausted => return None,
        }
    }
}

#[test]
fn probe_urls_follow_policy() {
    assert_eq!(probe_url("https://rpc.osmosis.zone/", ProbeKind::Rpc), Some("https://rpc.osmosis.zone/status".to_string()));
    assert_eq!(
        probe_url("https://lcd.osmosis.zone//", ProbeKind::Rest),
        Some("https://lcd.osmosis.zone/cosmos/base/tendermint/v1beta1/blocks/latest".to_string())
    );
    assert_eq!(probe_url("http://insecure.example", ProbeKind::Rpc), None);
    assert_eq!(probe_url("", ProbeKind::Rpc), None);
}

#[test]
fn stale_then_live_picks_live() {
    let eps = vec![ep("https://stale.example"), ep("https://live.example")];
    assert_eq!(run(&eps, &[false, true]), Some("https://live.example".to_string()));
}

#[test]
fn none_live_picks_none() {
    assert_eq!(run(&vec![], &[]), None);
    let eps = vec![ep("https://a.example"), ep("https://b.example")];
    assert_eq!(run(&eps, &[false, false]), None);
}

#[test]
fn first_live_is_chosen() {
    let eps = vec![ep("https://live.example"), ep("https://live2.example")];
    assert_eq!(run(&eps, &[true, true]), Some("https://live.example".to_string()));
}

#[test]
fn excluded_endpoints_are_not_probed() {
    let eps = vec![ep("http://plain.example"), ep(""), ep("https://ok.example")];
    assert_eq!(
        first_probe(&eps, ProbeKind::Rest),
        Selection::Probe {
            index: 2,
            url: "https://ok.example/cosmos/base/tendermint/v1beta1/blocks/latest".to_string()
        }
    );
    assert_eq!(run(&eps, &[true, true, true]), Some("https://ok.example".to_string()));
}

#[test]
fn verdict_reads_block_time() {
    let now = 1_700_000_030;
    let rpc = r#"{"result":{"sync_info":{"latest_block_time":"2023-11-14T22:13:20Z"}}}"#;
    let fresh = Some(ProbeResponse { status: 200, body: rpc.to_string() });
    assert!(probe_verdict(&fresh, ProbeKind::Rpc, now));
    assert!(!probe_verdict(&fresh, ProbeKind::Rpc, now + 60));
    let bare = r#"{"sync_info":{"latest_block_time":"2023-11-14T22:13:20Z"}}"#;
    assert!(probe_verdict(&Some(ProbeResponse { status: 200, body: bare.to_string() }), ProbeKind::Rpc, now));
    let rest = r#"{"block":{"header":{"time":"2023-11-14T22:13:20.5Z"}}}"#;
    assert!(probe_verdict(&Some(ProbeResponse { status: 200, body: rest.to_string() }), ProbeKind::Rest, now));
    assert!(!probe_verdict(&Some(ProbeResponse { status: 200, body: rest.to_string() }), ProbeKind::Rpc, now));
    assert!(!probe_verdict(&Some(ProbeResponse { status: 503, body: rpc.to_string() }), ProbeKind::Rpc, now));
    assert!(!probe_verdict(&Some(ProbeResponse { status: 200, body: "<html>".to_string() }), ProbeKind::Rpc, now));
    let bad_time = r#"{"block":{"header":{"time":"yesterday"}}}"#;
    assert!(!probe_verdict(&Some(ProbeResponse { status: 200, body: bad_time.to_string() }), ProbeKind::Rest, now));
    assert!(!probe_verdict(&None, ProbeKind::Rpc, now));
}

#[test]
fn recency_is_under_a_minute() {
    assert!(is_recent(100, 159));
    assert!(!is_recent(100, 160));
    assert!(is_recent(100, 50));
    assert!(!is_recent(i64::MIN, i64::MAX));
}
