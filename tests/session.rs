use cosmoclerk::render::filter_network;
use cosmoclerk::session::{
    action_numbered, ibc_hash, notice_text, parse_button, step, ChainAction, Command, Event, Notice,
    PoolAction, Reply, SessionStore, State,
};

fn names() -> Vec<String> {
    vec![
        "osmosis".to_string(),
        "cosmoshub".to_string(),
        "juno".to_string(),
        "osmosistestnet".to_string(),
    ]
}

fn chains() -> Option<Vec<String>> {
    Some(names())
}

fn listing(page: usize, is_testnet: bool, last: Option<&str>) -> State {
    State::SelectingChain { page, is_testnet, last_selected: last.map(String::from) }
}

fn page_reply(page: usize, is_testnet: bool, last: Option<&str>) -> Reply {
    Reply::ChainPage { page, is_testnet, last_selected: last.map(String::from) }
}

fn selected(chain: &str) -> State {
    State::ChainSelected { chain: chain.to_string() }
}

#[test]
fn test_state_transitions() {
    let mut store = SessionStore::new();
    assert_eq!(store.get(123456), State::Start);
    store.set(123456, listing(0, false, None));
    assert!(matches!(store.get(123456), State::SelectingChain { .. }));
    store.set(123456, selected("osmosis"));
    assert!(matches!(store.get(123456), State::ChainSelected { .. }));
    store.set(123456, State::AwaitingIbcDenom { chain: "osmosis".to_string() });
    assert!(matches!(store.get(123456), State::AwaitingIbcDenom { .. }));
    store.reset(123456);
    assert_eq!(store.get(123456), State::Start);
}

#[test]
fn reset_keeps_other_sessions() {
    let mut store = SessionStore::new();
    store.set(1, selected("juno"));
    store.set(2, selected("osmosis"));
    store.reset(1);
    assert_eq!(store.get(1), State::Start);
    assert_eq!(store.get(2), selected("osmosis"));
    assert_eq!(State::default(), State::Start);
}

#[test]
fn test_callback_data_parsing() {
    assert_eq!(parse_button("select:osmosis"), Event::Select("osmosis".to_string()));
    assert_eq!(parse_button("page:2"), Event::Page(2));
    assert_eq!(parse_button("toggle_testnet:true"), Event::ToggleNetwork);
    assert_eq!(parse_button("action:chain_info"), Event::Action(ChainAction::ChainInfo));
    assert_eq!(parse_button("back:chains"), Event::Back);
}

#[test]
fn unknown_buttons_parse_as_such() {
    assert_eq!(parse_button("page:two"), Event::Button("page:two".to_string()));
    assert_eq!(parse_button("page:+7"), Event::Page(7));
    assert_eq!(parse_button("toggle_testnet:maybe"), Event::Button("toggle_testnet:maybe".to_string()));
    assert_eq!(parse_button("action:nothing"), Event::Button("action:nothing".to_string()));
    assert_eq!(parse_button("unknown_action"), Event::Button("unknown_action".to_string()));
    assert_eq!(parse_button("action:pool_info"), Event::Action(ChainAction::PoolInfo));
}

#[test]
fn test_numeric_menu_selection() {
    let expected = [
        ChainAction::ChainInfo,
        ChainAction::PeerNodes,
        ChainAction::Endpoints,
        ChainAction::Explorers,
        ChainAction::IbcId,
    ];
    for num in 1..=5u64 {
        assert_eq!(action_numbered(num), Some(expected[(num - 1) as usize]));
    }
    assert_eq!(action_numbered(0), None);
    assert_eq!(action_numbered(6), None);
}

#[test]
fn test_ibc_denom_validation() {
    assert_eq!(ibc_hash("ibc/ABC123DEF456"), Some("ABC123DEF456".to_string()));
    assert_eq!(ibc_hash("not_an_ibc_denom"), None);
    assert_eq!(ibc_hash("ibc/"), None);
    assert_eq!(ibc_hash("ibc/XYZ"), None);
}

#[test]
fn start_command_begins_chain_selection() {
    let (s, r) = step(&State::Start, &Event::Command(Command::Start), &chains());
    assert_eq!(s, listing(0, false, None));
    assert_eq!(r, page_reply(0, false, None));
}

#[test]
fn button_in_start_begins_chain_selection() {
    let (s, _) = step(&State::Start, &Event::Button("x".to_string()), &chains());
    assert_eq!(s, listing(0, false, None));
    let (s, r) = step(&State::Start, &Event::Text("osmosis".to_string()), &chains());
    assert_eq!(s, State::Start);
    assert_eq!(r, Reply::Notice(Notice::Unrecognized));
}

#[test]
fn selecting_chain_transitions() {
    let at = listing(1, false, None);
    let (s, r) = step(&at, &Event::Select("juno".to_string()), &chains());
    assert_eq!(s, selected("juno"));
    assert_eq!(r, Reply::ChainMenu { chain: "juno".to_string() });
    let (s, r) = step(&at, &Event::Page(40), &chains());
    assert_eq!(s, listing(40, false, None));
    assert_eq!(r, page_reply(40, false, None));
    let (s, _) = step(&at, &Event::ToggleNetwork, &chains());
    assert_eq!(s, listing(0, true, None));
    let (s, r) = step(&at, &Event::Back, &chains());
    assert_eq!(s, at);
    assert_eq!(r, Reply::Notice(Notice::Unrecognized));
}

#[test]
fn test_chain_name_matching() {
    let at = selected("juno");
    let (s, r) = step(&at, &Event::Text("COSMOSHUB".to_string()), &chains());
    assert_eq!(s, selected("cosmoshub"));
    assert_eq!(r, Reply::ChainMenu { chain: "cosmoshub".to_string() });
    let (s, r) = step(&at, &Event::Text("invalid_chain".to_string()), &chains());
    assert_eq!(s, at);
    assert_eq!(r, Reply::Notice(Notice::ChainNotFound));
    let testnets = filter_network(&names(), true);
    assert_eq!(testnets.len(), 1);
    assert_eq!(testnets[0], "osmosistestnet");
    let mainnets = filter_network(&names(), false);
    assert_eq!(mainnets.len(), 3);
}

#[test]
fn unknown_names_when_listing_failed() {
    let at = selected("juno");
    let (s, r) = step(&at, &Event::Text("osmosis".to_string()), &None);
    assert_eq!(s, at);
    assert_eq!(r, Reply::Notice(Notice::LookupFailed));
}

#[test]
fn back_marks_the_chain_left() {
    let at = selected("juno");
    let (s, r) = step(&at, &Event::Back, &chains());
    assert_eq!(s, listing(0, false, Some("juno")));
    assert_eq!(r, page_reply(0, false, Some("juno")));
    let (s, r) = step(&s, &Event::Page(1), &chains());
    assert_eq!(s, listing(1, false, Some("juno")));
    assert_eq!(r, page_reply(1, false, Some("juno")));
    let (s, r) = step(&s, &Event::ToggleNetwork, &chains());
    assert_eq!(s, listing(0, true, None));
    assert_eq!(r, page_reply(0, true, None));
}

#[test]
fn chain_selected_actions() {
    let at = selected("osmosis");
    let (s, r) = step(&at, &Event::Action(ChainAction::Endpoints), &chains());
    assert_eq!(s, at);
    assert_eq!(r, Reply::Detail { chain: "osmosis".to_string(), action: ChainAction::Endpoints });
    let (s, _) = step(&at, &Event::Action(ChainAction::PoolIncentives), &chains());
    assert_eq!(s, State::AwaitingPoolId { chain: "osmosis".to_string(), action: PoolAction::Incentives });
    let (s, _) = step(&at, &Event::Action(ChainAction::TokenPrice), &chains());
    assert_eq!(s, State::AwaitingTokenTicker { chain: "osmosis".to_string() });
    let (s, _) = step(&at, &Event::Text("3".to_string()), &chains());
    assert_eq!(s, at);
    for typed in ["0", "6", "8", "9"] {
        let (s, r) = step(&at, &Event::Text(typed.to_string()), &chains());
        assert_eq!(s, at);
        assert_eq!(r, Reply::Notice(Notice::InvalidOption));
    }
    let (s, _) = step(&at, &Event::Text("5".to_string()), &chains());
    assert_eq!(s, State::AwaitingIbcDenom { chain: "osmosis".to_string() });
}

#[test]
fn ibc_lookup_refused_for_testnets() {
    let at = selected("osmosistestnet");
    let (s, r) = step(&at, &Event::Action(ChainAction::IbcId), &chains());
    assert_eq!(s, at);
    assert_eq!(r, Reply::Notice(Notice::IbcNotForTestnets));
}

#[test]
fn awaiting_states_are_single_shot() {
    let pool = State::AwaitingPoolId { chain: "osmosis".to_string(), action: PoolAction::Info };
    let (s, r) = step(&pool, &Event::Text("42".to_string()), &chains());
    assert_eq!(s, selected("osmosis"));
    assert_eq!(r, Reply::PoolQuery { chain: "osmosis".to_string(), action: PoolAction::Info, pool_id: 42 });
    let (s, r) = step(&pool, &Event::Text("forty".to_string()), &chains());
    assert_eq!(s, selected("osmosis"));
    assert_eq!(r, Reply::Notice(Notice::InvalidPoolId));
    let ticker = State::AwaitingTokenTicker { chain: "osmosis".to_string() };
    let (s, r) = step(&ticker, &Event::Text("any thing".to_string()), &chains());
    assert_eq!(s, selected("osmosis"));
    assert_eq!(r, Reply::PriceQuery { chain: "osmosis".to_string(), ticker: "any thing".to_string() });
    let denom = State::AwaitingIbcDenom { chain: "osmosis".to_string() };
    let (s, r) = step(&denom, &Event::Text("hello".to_string()), &chains());
    assert_eq!(s, selected("osmosis"));
    assert_eq!(r, Reply::Notice(Notice::InvalidIbcDenom));
    let (s, r) = step(&denom, &Event::Back, &chains());
    assert_eq!(s, denom);
    assert_eq!(r, Reply::Notice(Notice::Unrecognized));
}

#[test]
fn restart_discards_sub_flow() {
    let at = State::AwaitingPoolId { chain: "juno".to_string(), action: PoolAction::Incentives };
    let (s, r) = step(&at, &Event::Command(Command::Restart), &chains());
    assert_eq!(s, listing(0, false, None));
    assert_eq!(r, page_reply(0, false, None));
    let (s, r) = step(&at, &Event::Command(Command::Help), &chains());
    assert_eq!(s, at);
    assert_eq!(r, Reply::Notice(Notice::Help));
    let (s, _) = step(&at, &Event::Command(Command::Testnets), &chains());
    assert_eq!(s, listing(0, true, None));
}

#[test]
fn end_to_end_ibc_lookup_scenario() {
    let names = chains();
    let (s, _) = step(&State::Start, &Event::Command(Command::Start), &names);
    assert_eq!(s, listing(0, false, None));
    let (s, _) = step(&s, &parse_button("select:osmosis"), &names);
    assert_eq!(s, selected("osmosis"));
    let (s, _) = step(&s, &parse_button("action:ibc_id"), &names);
    assert_eq!(s, State::AwaitingIbcDenom { chain: "osmosis".to_string() });
    let (s, r) = step(&s, &Event::Text("ibc/ABC123".to_string()), &names);
    assert_eq!(r, Reply::IbcLookup { chain: "osmosis".to_string(), hash: "ABC123".to_string() });
    assert_eq!(s, selected("osmosis"));
}

#[test]
fn notices_have_texts() {
    assert_eq!(notice_text(Notice::IbcNotForTestnets), "IBC-ID is not available for testnets.");
    assert_eq!(notice_text(Notice::InvalidOption), "Invalid option number. Please try again.");
}
