//! The per-session menu state machine.
//!
//! A session is in one of six states. Each event (a command, a button press or
//! free text) moves it to a next state and yields a reply: what to show, or
//! what to look up and then show. A given state, event and list of known chain
//! names always give the same next state and reply.

use vstd::prelude::*;
use std::collections::HashMap;
use crate::text::{
    after_prefix, contains, folded_all, has_infix, hex_text, is_hex_text, lower_of, names_of, parse_u64,
    parsed_u64, position_folded, position_from, same_text, strip_prefix,
};

verus! {

/// The commands a user may send.
#[derive(Clone, Copy, Debug, PartialEq, Eq)]
pub enum Command {
    Start,
    Restart,
    Help,
    Testnet,
    Testnets,
    Mainnet,
    Mainnets,
}

/// The pool query that a session waits for a pool id for.
#[derive(Clone, Copy, Debug, PartialEq, Eq)]
pub enum PoolAction {
    Incentives,
    Info,
}

/// The actions of a chain's menu.
#[derive(Clone, Copy, Debug, PartialEq, Eq)]
pub enum ChainAction {
    ChainInfo,
    PeerNodes,
    Endpoints,
    Explorers,
    IbcId,
    PoolIncentives,
    PoolInfo,
    TokenPrice,
}

/// The fixed messages a reply may show.
#[derive(Clone, Copy, Debug, PartialEq, Eq)]
pub enum Notice {
    Help,
    EnterIbcDenom,
    EnterPoolId,
    EnterTicker,
    InvalidIbcDenom,
    InvalidPoolId,
    InvalidOption,
    IbcNotForTestnets,
    ChainNotFound,
    Unrecognized,
    NoHealthyRest,
    LookupFailed,
    UnknownTicker,
}

/// Where a session is in the menus.
#[derive(Clone, Debug, PartialEq, Eq)]
pub enum State {
    /// No chain selected: the initial state, and the state after a reset.
    Start,
    /// Browsing a page of the mainnet or testnet chains; `last_selected` is
    /// the chain whose menu was left for this list, if any.
    SelectingChain { page: usize, is_testnet: bool, last_selected: Option<String> },
    /// A chain is chosen and its menu is active.
    ChainSelected { chain: String },
    /// Waiting for an IBC denom, `ibc/` and a hash.
    AwaitingIbcDenom { chain: String },
    /// Waiting for a numeric pool id.
    AwaitingPoolId { chain: String, action: PoolAction },
    /// Waiting for a token ticker.
    AwaitingTokenTicker { chain: String },
}

/// What a session receives.
#[derive(Clone, Debug, PartialEq, Eq)]
pub enum Event {
    Command(Command),
    /// A button that selects a chain.
    Select(String),
    /// A button that goes to a page of the chain list.
    Page(usize),
    /// A button that switches between mainnets and testnets.
    ToggleNetwork,
    /// A button of a chain's menu.
    Action(ChainAction),
    /// The button that goes back to the chain list.
    Back,
    /// Any other button.
    Button(String),
    /// Free text.
    Text(String),
}

/// What to show, or look up and then show, after an event.
#[derive(Clone, Debug, PartialEq, Eq)]
pub enum Reply {
    /// A page of the mainnet or testnet chain list, marking `last_selected`.
    ChainPage { page: usize, is_testnet: bool, last_selected: Option<String> },
    /// The menu of a chain.
    ChainMenu { chain: String },
    /// One of the chain's displays: info, peer nodes, endpoints or explorers.
    Detail { chain: String, action: ChainAction },
    /// Trace an IBC denom hash on the chain.
    IbcLookup { chain: String, hash: String },
    /// Query a pool of the chain.
    PoolQuery { chain: String, action: PoolAction, pool_id: u64 },
    /// Look a token's price up.
    PriceQuery { chain: String, ticker: String },
    /// A fixed message.
    Notice(Notice),
}

/// The mathematical form of a `State`.
pub enum StateModel {
    Start,
    SelectingChain { page: usize, is_testnet: bool, last_selected: Option<Seq<char>> },
    ChainSelected { chain: Seq<char> },
    AwaitingIbcDenom { chain: Seq<char> },
    AwaitingPoolId { chain: Seq<char>, action: PoolAction },
    AwaitingTokenTicker { chain: Seq<char> },
}

/// The mathematical form of an `Event`.
pub enum EventModel {
    Command(Command),
    Select(Seq<char>),
    Page(usize),
    ToggleNetwork,
    Action(ChainAction),
    Back,
    Button(Seq<char>),
    Text(Seq<char>),
}

/// The mathematical form of a `Reply`.
pub enum ReplyModel {
    ChainPage { page: usize, is_testnet: bool, last_selected: Option<Seq<char>> },
    ChainMenu { chain: Seq<char> },
    Detail { chain: Seq<char>, action: ChainAction },
    IbcLookup { chain: Seq<char>, hash: Seq<char> },
    PoolQuery { chain: Seq<char>, action: PoolAction, pool_id: u64 },
    PriceQuery { chain: Seq<char>, ticker: Seq<char> },
    Notice(Notice),
}

/// The characters of an optional string.
pub open spec fn text_of(o: Option<String>) -> Option<Seq<char>> {
    match o {
        Some(x) => Some(x@),
        None => None,
    }
}

impl View for State {
    type V = StateModel;

    open spec fn view(&self) -> StateModel {
        match self {
            State::Start => StateModel::Start,
            State::SelectingChain { page, is_testnet, last_selected } => StateModel::SelectingChain {
                page: *page,
                is_testnet: *is_testnet,
                last_selected: text_of(*last_selected),
            },
            State::ChainSelected { chain } => StateModel::ChainSelected { chain: chain@ },
            State::AwaitingIbcDenom { chain } => StateModel::AwaitingIbcDenom { chain: chain@ },
            State::AwaitingPoolId { chain, action } => StateModel::AwaitingPoolId {
                chain: chain@,
                action: *action,
            },
            State::AwaitingTokenTicker { chain } => StateModel::AwaitingTokenTicker { chain: chain@ },
        }
    }
}

impl View for Event {
    type V = EventModel;

    open spec fn view(&self) -> EventModel {
        match self {
            Event::Command(c) => EventModel::Command(*c),
            Event::Select(c) => EventModel::Select(c@),
            Event::Page(p) => EventModel::Page(*p),
            Event::ToggleNetwork => EventModel::ToggleNetwork,
            Event::Action(a) => EventModel::Action(*a),
            Event::Back => EventModel::Back,
            Event::Button(d) => EventModel::Button(d@),
            Event::Text(t) => EventModel::Text(t@),
        }
    }
}

impl View for Reply {
    type V = ReplyModel;

    open spec fn view(&self) -> ReplyModel {
        match self {
            Reply::ChainPage { page, is_testnet, last_selected } => ReplyModel::ChainPage {
                page: *page,
                is_testnet: *is_testnet,
                last_selected: text_of(*last_selected),
            },
            Reply::ChainMenu { chain } => ReplyModel::ChainMenu { chain: chain@ },
            Reply::Detail { chain, action } => ReplyModel::Detail { chain: chain@, action: *action },
            Reply::IbcLookup { chain, hash } => ReplyModel::IbcLookup { chain: chain@, hash: hash@ },
            Reply::PoolQuery { chain, action, pool_id } => ReplyModel::PoolQuery {
                chain: chain@,
                action: *action,
                pool_id: *pool_id,
            },
            Reply::PriceQuery { chain, ticker } => ReplyModel::PriceQuery { chain: chain@, ticker: ticker@ },
            Reply::Notice(n) => ReplyModel::Notice(*n),
        }
    }
}

impl Default for State {
    fn default() -> (r: State)
        ensures
            r == State::Start,
    {
        State::Start
    }
}

/// Whether a chain name names a testnet.
pub open spec fn is_testnet_chain(chain: Seq<char>) -> bool {
    has_infix(chain, "testnet"@)
}

/// The hash of an IBC denom: the text after `ibc/`, if that is non-empty and hexadecimal.
pub open spec fn ibc_hash_of(text: Seq<char>) -> Option<Seq<char>> {
    match after_prefix(text, "ibc/"@) {
        Some(h) => if is_hex_text(h) {
            Some(h)
        } else {
            None
        },
        None => None,
    }
}

/// The menu action with number `n`, counting from one: the five numbered
/// entries of a chain's menu.
pub open spec fn numbered_action(n: u64) -> Option<ChainAction> {
    if n == 1 {
        Some(ChainAction::ChainInfo)
    } else if n == 2 {
        Some(ChainAction::PeerNodes)
    } else if n == 3 {
        Some(ChainAction::Endpoints)
    } else if n == 4 {
        Some(ChainAction::Explorers)
    } else if n == 5 {
        Some(ChainAction::IbcId)
    } else {
        None
    }
}

/// The known chain that `text` names, case ignored: the first such in `names`.
pub open spec fn named_chain(names: Seq<Seq<char>>, text: Seq<char>) -> Option<Seq<char>> {
    match position_from(folded_all(names), lower_of(text), 0) {
        Some(i) => Some(names[i]),
        None => None,
    }
}

/// Page `page` of the chain list of kind `testnet`, marking `last`.
pub open spec fn list_page(page: usize, testnet: bool, last: Option<Seq<char>>) -> (StateModel, ReplyModel) {
    (
        StateModel::SelectingChain { page, is_testnet: testnet, last_selected: last },
        ReplyModel::ChainPage { page, is_testnet: testnet, last_selected: last },
    )
}

/// The first page of the mainnet chains.
pub open spec fn begin() -> (StateModel, ReplyModel) {
    list_page(0, false, None)
}

/// An action of the menu of `chain`.
pub open spec fn on_action(chain: Seq<char>, a: ChainAction) -> (StateModel, ReplyModel) {
    match a {
        ChainAction::IbcId => if is_testnet_chain(chain) {
            (StateModel::ChainSelected { chain }, ReplyModel::Notice(Notice::IbcNotForTestnets))
        } else {
            (StateModel::AwaitingIbcDenom { chain }, ReplyModel::Notice(Notice::EnterIbcDenom))
        },
        ChainAction::PoolIncentives => (
            StateModel::AwaitingPoolId { chain, action: PoolAction::Incentives },
            ReplyModel::Notice(Notice::EnterPoolId),
        ),
        ChainAction::PoolInfo => (
            StateModel::AwaitingPoolId { chain, action: PoolAction::Info },
            ReplyModel::Notice(Notice::EnterPoolId),
        ),
        ChainAction::TokenPrice => (
            StateModel::AwaitingTokenTicker { chain },
            ReplyModel::Notice(Notice::EnterTicker),
        ),
        _ => (StateModel::ChainSelected { chain }, ReplyModel::Detail { chain, action: a }),
    }
}

/// Free text that may name a known chain: it selects that chain, else the
/// state is kept and the chain is reported not found. Where the known names
/// could not be had (`None`), the state is kept and the failure is reported.
pub open spec fn on_chain_name(s: StateModel, names: Option<Seq<Seq<char>>>, text: Seq<char>) -> (StateModel, ReplyModel) {
    match names {
        Some(names) => match named_chain(names, text) {
            Some(c) => (StateModel::ChainSelected { chain: c }, ReplyModel::ChainMenu { chain: c }),
            None => (s, ReplyModel::Notice(Notice::ChainNotFound)),
        },
        None => (s, ReplyModel::Notice(Notice::LookupFailed)),
    }
}

/// The names of a known list, if it could be had.
pub open spec fn known_names(chains: Option<Vec<String>>) -> Option<Seq<Seq<char>>> {
    match chains {
        Some(v) => Some(names_of(v@)),
        None => None,
    }
}

/// Whether an event is a button press.
pub open spec fn is_button(e: EventModel) -> bool {
    !(e is Command || e is Text)
}

/// The transition table: the next state and the reply, from state `s` on event
/// `e`, where `names` are the known chain names (`None` where they could not be had).
pub open spec fn next(s: StateModel, e: EventModel, names: Option<Seq<Seq<char>>>) -> (StateModel, ReplyModel) {
    let unrecognized = (s, ReplyModel::Notice(Notice::Unrecognized));
    match e {
        EventModel::Command(c) => match c {
            Command::Help => (s, ReplyModel::Notice(Notice::Help)),
            Command::Testnet | Command::Testnets => list_page(0, true, None),
            _ => begin(),
        },
        _ => match s {
            StateModel::Start => if is_button(e) {
                begin()
            } else {
                unrecognized
            },
            StateModel::SelectingChain { page, is_testnet, last_selected } => match e {
                EventModel::Select(c) => (StateModel::ChainSelected { chain: c }, ReplyModel::ChainMenu { chain: c }),
                EventModel::Page(p) => list_page(p, is_testnet, last_selected),
                EventModel::ToggleNetwork => list_page(0, !is_testnet, None),
                EventModel::Text(t) => on_chain_name(s, names, t),
                _ => unrecognized,
            },
            StateModel::ChainSelected { chain } => match e {
                EventModel::Action(a) => on_action(chain, a),
                EventModel::Back => list_page(0, false, Some(chain)),
                EventModel::Text(t) => match parsed_u64(t) {
                    Some(n) => match numbered_action(n) {
                        Some(a) => on_action(chain, a),
                        None => (s, ReplyModel::Notice(Notice::InvalidOption)),
                    },
                    None => on_chain_name(s, names, t),
                },
                _ => unrecognized,
            },
            StateModel::AwaitingIbcDenom { chain } => match e {
                EventModel::Text(t) => match ibc_hash_of(t) {
                    Some(h) => (StateModel::ChainSelected { chain }, ReplyModel::IbcLookup { chain, hash: h }),
                    None => (StateModel::ChainSelected { chain }, ReplyModel::Notice(Notice::InvalidIbcDenom)),
                },
                _ => unrecognized,
            },
            StateModel::AwaitingPoolId { chain, action } => match e {
                EventModel::Text(t) => match parsed_u64(t) {
                    Some(id) => (
                        StateModel::ChainSelected { chain },
                        ReplyModel::PoolQuery { chain, action, pool_id: id },
                    ),
                    None => (StateModel::ChainSelected { chain }, ReplyModel::Notice(Notice::InvalidPoolId)),
                },
                _ => unrecognized,
            },
            StateModel::AwaitingTokenTicker { chain } => match e {
                EventModel::Text(t) => (StateModel::ChainSelected { chain }, ReplyModel::PriceQuery { chain, ticker: t }),
                _ => unrecognized,
            },
        },
    }
}

fn copy_text(o: &Option<String>) -> (r: Option<String>)
    ensures
        r == *o,
{
    match o {
        Some(x) => Some(x.clone()),
        None => None,
    }
}

fn page_exec(page: usize, testnet: bool, last: Option<String>) -> (r: (State, Reply))
    ensures
        (r.0@, r.1@) == list_page(page, testnet, text_of(last)),
{
    let mark = copy_text(&last);
    (
        State::SelectingChain { page, is_testnet: testnet, last_selected: last },
        Reply::ChainPage { page, is_testnet: testnet, last_selected: mark },
    )
}

/// A copy of `s`.
pub fn copy_state(s: &State) -> (r: State)
    ensures
        r == *s,
{
    match s {
        State::Start => State::Start,
        State::SelectingChain { page, is_testnet, last_selected } => State::SelectingChain {
            page: *page,
            is_testnet: *is_testnet,
            last_selected: copy_text(last_selected),
        },
        State::ChainSelected { chain } => State::ChainSelected { chain: chain.clone() },
        State::AwaitingIbcDenom { chain } => State::AwaitingIbcDenom { chain: chain.clone() },
        State::AwaitingPoolId { chain, action } => State::AwaitingPoolId { chain: chain.clone(), action: *action },
        State::AwaitingTokenTicker { chain } => State::AwaitingTokenTicker { chain: chain.clone() },
    }
}

/// Whether a chain name names a testnet.
pub fn is_testnet(chain: &str) -> (r: bool)
    ensures
        r == is_testnet_chain(chain@),
{
    contains(chain, "testnet")
}

/// The hash of an IBC denom, if `text` is `ibc/` and a hexadecimal hash.
pub fn ibc_hash(text: &str) -> (r: Option<String>)
    ensures
        match r {
            Some(h) => ibc_hash_of(text@) == Some(h@),
            None => ibc_hash_of(text@) is None,
        },
{
    match strip_prefix(text, "ibc/") {
        Some(h) => if hex_text(h.as_str()) {
            Some(h)
        } else {
            None
        },
        None => None,
    }
}

/// The menu action with number `n`, counting from one.
pub fn action_numbered(n: u64) -> (r: Option<ChainAction>)
    ensures
        r == numbered_action(n),
{
    match n {
        1 => Some(ChainAction::ChainInfo),
        2 => Some(ChainAction::PeerNodes),
        3 => Some(ChainAction::Endpoints),
        4 => Some(ChainAction::Explorers),
        5 => Some(ChainAction::IbcId),
        _ => None,
    }
}

fn begin_exec() -> (r: (State, Reply))
    ensures
        (r.0@, r.1@) == begin(),
{
    page_exec(0, false, None)
}

fn unrecognized(s: &State) -> (r: (State, Reply))
    ensures
        (r.0@, r.1@) == (s@, ReplyModel::Notice(Notice::Unrecognized)),
{
    (copy_state(s), Reply::Notice(Notice::Unrecognized))
}

fn action_exec(chain: &String, a: ChainAction) -> (r: (State, Reply))
    ensures
        (r.0@, r.1@) == on_action(chain@, a),
{
    match a {
        ChainAction::IbcId => {
            if is_testnet(chain.as_str()) {
                (State::ChainSelected { chain: chain.clone() }, Reply::Notice(Notice::IbcNotForTestnets))
            } else {
                (State::AwaitingIbcDenom { chain: chain.clone() }, Reply::Notice(Notice::EnterIbcDenom))
            }
        },
        ChainAction::PoolIncentives => (
            State::AwaitingPoolId { chain: chain.clone(), action: PoolAction::Incentives },
            Reply::Notice(Notice::EnterPoolId),
        ),
        ChainAction::PoolInfo => (
            State::AwaitingPoolId { chain: chain.clone(), action: PoolAction::Info },
            Reply::Notice(Notice::EnterPoolId),
        ),
        ChainAction::TokenPrice => (
            State::AwaitingTokenTicker { chain: chain.clone() },
            Reply::Notice(Notice::EnterTicker),
        ),
        _ => (State::ChainSelected { chain: chain.clone() }, Reply::Detail { chain: chain.clone(), action: a }),
    }
}

fn chain_name_exec(s: &State, known: &Option<Vec<String>>, text: &String) -> (r: (State, Reply))
    ensures
        (r.0@, r.1@) == on_chain_name(s@, known_names(*known), text@),
{
    let chains = match known {
        Some(v) => v,
        None => {
            return (copy_state(s), Reply::Notice(Notice::LookupFailed));
        },
    };
    match position_folded(chains, text.as_str()) {
        Some(i) => {
            assert(names_of(chains@)[i as int] == chains@[i as int]@);
            (State::ChainSelected { chain: chains[i].clone() }, Reply::ChainMenu { chain: chains[i].clone() })
        },
        None => (copy_state(s), Reply::Notice(Notice::ChainNotFound)),
    }
}

/// Takes one event: the next state and the reply, by the transition table
/// `next`, where `chains` are the known chain names (`None` where the listing
/// could not be had).
pub fn step(state: &State, event: &Event, chains: &Option<Vec<String>>) -> (r: (State, Reply))
    ensures
        (r.0@, r.1@) == next(state@, event@, known_names(*chains)),
{
    if let Event::Command(c) = event {
        return match c {
            Command::Help => (copy_state(state), Reply::Notice(Notice::Help)),
            Command::Testnet | Command::Testnets => page_exec(0, true, None),
            _ => begin_exec(),
        };
    }
    match state {
        State::Start => match event {
            Event::Text(_) => unrecognized(state),
            _ => begin_exec(),
        },
        State::SelectingChain { page: _, is_testnet, last_selected } => match event {
            Event::Select(c) => (State::ChainSelected { chain: c.clone() }, Reply::ChainMenu { chain: c.clone() }),
            Event::Page(p) => page_exec(*p, *is_testnet, copy_text(last_selected)),
            Event::ToggleNetwork => page_exec(0, !*is_testnet, None),
            Event::Text(t) => chain_name_exec(state, chains, t),
            _ => unrecognized(state),
        },
        State::ChainSelected { chain } => match event {
            Event::Action(a) => action_exec(chain, *a),
            Event::Back => page_exec(0, false, Some(chain.clone())),
            Event::Text(t) => match parse_u64(t.as_str()) {
                Some(n) => match action_numbered(n) {
                    Some(a) => action_exec(chain, a),
                    None => (copy_state(state), Reply::Notice(Notice::InvalidOption)),
                },
                None => chain_name_exec(state, chains, t),
            },
            _ => unrecognized(state),
        },
        State::AwaitingIbcDenom { chain } => match event {
            Event::Text(t) => match ibc_hash(t.as_str()) {
                Some(h) => (
                    State::ChainSelected { chain: chain.clone() },
                    Reply::IbcLookup { chain: chain.clone(), hash: h },
                ),
                None => (State::ChainSelected { chain: chain.clone() }, Reply::Notice(Notice::InvalidIbcDenom)),
            },
            _ => unrecognized(state),
        },
        State::AwaitingPoolId { chain, action } => match event {
            Event::Text(t) => match parse_u64(t.as_str()) {
                Some(id) => (
                    State::ChainSelected { chain: chain.clone() },
                    Reply::PoolQuery { chain: chain.clone(), action: *action, pool_id: id },
                ),
                None => (State::ChainSelected { chain: chain.clone() }, Reply::Notice(Notice::InvalidPoolId)),
            },
            _ => unrecognized(state),
        },
        State::AwaitingTokenTicker { chain } => match event {
            Event::Text(t) => (
                State::ChainSelected { chain: chain.clone() },
                Reply::PriceQuery { chain: chain.clone(), ticker: t.clone() },
            ),
            _ => unrecognized(state),
        },
    }
}

/// The menu action that a button's action name stands for.
pub open spec fn action_named(name: Seq<char>) -> Option<ChainAction> {
    if name == "chain_info"@ {
        Some(ChainAction::ChainInfo)
    } else if name == "peer_nodes"@ {
        Some(ChainAction::PeerNodes)
    } else if name == "endpoints"@ {
        Some(ChainAction::Endpoints)
    } else if name == "explorers"@ {
        Some(ChainAction::Explorers)
    } else if name == "ibc_id"@ {
        Some(ChainAction::IbcId)
    } else if name == "pool_incentives"@ {
        Some(ChainAction::PoolIncentives)
    } else if name == "pool_info"@ {
        Some(ChainAction::PoolInfo)
    } else if name == "token_price"@ {
        Some(ChainAction::TokenPrice)
    } else {
        None
    }
}

/// The event that a button's data stands for: `select:<chain>`, `page:<n>`,
/// `toggle_testnet:<true|false>`, `action:<name>`, `back:chains`, or else a
/// button of no known kind.
pub open spec fn button_event(d: Seq<char>) -> EventModel {
    if let Some(c) = after_prefix(d, "select:"@) {
        EventModel::Select(c)
    } else if let Some(n) = after_prefix(d, "page:"@) {
        match parsed_u64(n) {
            Some(p) => if p <= usize::MAX {
                EventModel::Page(p as usize)
            } else {
                EventModel::Button(d)
            },
            None => EventModel::Button(d),
        }
    } else if let Some(b) = after_prefix(d, "toggle_testnet:"@) {
        if b == "true"@ || b == "false"@ {
            EventModel::ToggleNetwork
        } else {
            EventModel::Button(d)
        }
    } else if let Some(a) = after_prefix(d, "action:"@) {
        match action_named(a) {
            Some(x) => EventModel::Action(x),
            None => EventModel::Button(d),
        }
    } else if d == "back:chains"@ {
        EventModel::Back
    } else {
        EventModel::Button(d)
    }
}

/// The menu action that a button's action name stands for.
pub fn action_by_name(name: &str) -> (r: Option<ChainAction>)
    ensures
        r == action_named(name@),
{
    if same_text(name, "chain_info") {
        Some(ChainAction::ChainInfo)
    } else if same_text(name, "peer_nodes") {
        Some(ChainAction::PeerNodes)
    } else if same_text(name, "endpoints") {
        Some(ChainAction::Endpoints)
    } else if same_text(name, "explorers") {
        Some(ChainAction::Explorers)
    } else if same_text(name, "ibc_id") {
        Some(ChainAction::IbcId)
    } else if same_text(name, "pool_incentives") {
        Some(ChainAction::PoolIncentives)
    } else if same_text(name, "pool_info") {
        Some(ChainAction::PoolInfo)
    } else if same_text(name, "token_price") {
        Some(ChainAction::TokenPrice)
    } else {
        None
    }
}

/// The event that a button's data stands for.
pub fn parse_button(data: &str) -> (r: Event)
    ensures
        r@ == button_event(data@),
{
    if let Some(c) = strip_prefix(data, "select:") {
        return Event::Select(c);
    }
    if let Some(n) = strip_prefix(data, "page:") {
        return match parse_u64(n.as_str()) {
            Some(p) => if p <= usize::MAX as u64 {
                Event::Page(p as usize)
            } else {
                Event::Button(String::from_str(data))
            },
            None => Event::Button(String::from_str(data)),
        };
    }
    if let Some(b) = strip_prefix(data, "toggle_testnet:") {
        return if same_text(b.as_str(), "true") || same_text(b.as_str(), "false") {
            Event::ToggleNetwork
        } else {
            Event::Button(String::from_str(data))
        };
    }
    if let Some(a) = strip_prefix(data, "action:") {
        return match action_by_name(a.as_str()) {
            Some(x) => Event::Action(x),
            None => Event::Button(String::from_str(data)),
        };
    }
    if same_text(data, "back:chains") {
        Event::Back
    } else {
        Event::Button(String::from_str(data))
    }
}

/// A restart always succeeds, from every state: it discards what was in
/// progress and begins as a start from the initial state does.
pub proof fn lemma_restart_begins_afresh(s: StateModel, names: Option<Seq<Seq<char>>>)
    ensures
        ({
            let restarted = next(s, EventModel::Command(Command::Restart), names);
            &&& restarted == next(StateModel::Start, EventModel::Command(Command::Start), names)
            &&& restarted == begin()
        }),
{
}

/// An event that the state does not recognize leaves the state as it was.
pub proof fn lemma_unrecognized_keeps_state(s: StateModel, e: EventModel, names: Option<Seq<Seq<char>>>)
    ensures
        next(s, e, names).1 == ReplyModel::Notice(Notice::Unrecognized) ==> next(s, e, names).0 == s,
{
}

/// Every sub-flow that waits for text is single-shot: any text leaves it for
/// the chain's menu, whatever the text is.
pub proof fn lemma_awaiting_is_single_shot(chain: Seq<char>, action: PoolAction, t: Seq<char>, names: Option<Seq<Seq<char>>>)
    ensures
        ({
            let back = StateModel::ChainSelected { chain };
            let text = EventModel::Text(t);
            &&& next(StateModel::AwaitingIbcDenom { chain }, text, names).0 == back
            &&& next(StateModel::AwaitingPoolId { chain, action }, text, names).0 == back
            &&& next(StateModel::AwaitingTokenTicker { chain }, text, names).0 == back
        }),
{
}

/// The state of session `id` in a store that maps sessions to states: a
/// session the store does not hold is at the start.
pub open spec fn state_in(sessions: Map<i64, State>, id: i64) -> State {
    if sessions.contains_key(id) {
        sessions[id]
    } else {
        State::Start
    }
}

/// The current state of each session, by chat id.
pub struct SessionStore {
    sessions: HashMap<i64, State>,
}

impl SessionStore {
    /// The stored states, by session.
    pub closed spec fn sessions(&self) -> Map<i64, State> {
        self.sessions@
    }

    /// A store that holds no session.
    pub fn new() -> (r: Self)
        ensures
            r.sessions() == Map::<i64, State>::empty(),
    {
        SessionStore { sessions: HashMap::new() }
    }

    /// The state of session `id`; the start if it has none.
    pub fn get(&self, id: i64) -> (r: State)
        ensures
            r == state_in(self.sessions(), id),
    {
        broadcast use vstd::std_specs::hash::group_hash_axioms;

        match self.sessions.get(&id) {
            Some(s) => copy_state(s),
            None => State::Start,
        }
    }

    /// Makes `s` the state of session `id`.
    pub fn set(&mut self, id: i64, s: State)
        ensures
            final(self).sessions() == old(self).sessions().insert(id, s),
    {
        broadcast use vstd::std_specs::hash::group_hash_axioms;

        self.sessions.insert(id, s);
    }

    /// Puts session `id` back at the start.
    pub fn reset(&mut self, id: i64)
        ensures
            final(self).sessions() == old(self).sessions().remove(id),
    {
        broadcast use vstd::std_specs::hash::group_hash_axioms;

        self.sessions.remove(&id);
    }
}

/// After a reset, a session is at the start, whatever it was before; the
/// other sessions keep their states.
pub proof fn lemma_reset_then_get_is_start(sessions: Map<i64, State>, id: i64, other: i64)
    ensures
        state_in(sessions.remove(id), id) == State::Start,
        other != id ==> state_in(sessions.remove(id), other) == state_in(sessions, other),
{
}

/// The text of a fixed message.
pub open spec fn notice_message(n: Notice) -> Seq<char> {
    match n {
        Notice::Help => "Chain registry explorer\n\nCommands:\n/start - Start the bot\n/restart - Clear session and restart\n/help - Show this message\n/testnets - Show testnet chains\n/mainnets - Show mainnet chains\n\nYou can also type a chain name directly to select it."@,
        Notice::EnterIbcDenom => "Enter IBC denom (e.g., ibc/ABC123...):"@,
        Notice::EnterPoolId => "Enter a pool id (a number):"@,
        Notice::EnterTicker => "Enter a token ticker (e.g., OSMO):"@,
        Notice::InvalidIbcDenom => "Please enter a valid IBC denom (e.g., ibc/ABC123...)"@,
        Notice::InvalidPoolId => "Please enter a valid pool id (a number)."@,
        Notice::InvalidOption => "Invalid option number. Please try again."@,
        Notice::IbcNotForTestnets => "IBC-ID is not available for testnets."@,
        Notice::ChainNotFound => "Chain not found. Use /start to see available chains or type a valid chain name."@,
        Notice::Unrecognized => "Session expired or invalid state. Please use /start to begin again."@,
        Notice::NoHealthyRest => "No healthy REST endpoint found for this chain"@,
        Notice::LookupFailed => "The lookup failed. Please try again later."@,
        Notice::UnknownTicker => "No asset of this chain has that ticker and a price id."@,
    }
}

/// The text of a fixed message.
pub fn notice_text(n: Notice) -> (r: String)
    ensures
        r@ == notice_message(n),
{
    match n {
        Notice::Help => String::from_str("Chain registry explorer\n\nCommands:\n/start - Start the bot\n/restart - Clear session and restart\n/help - Show this message\n/testnets - Show testnet chains\n/mainnets - Show mainnet chains\n\nYou can also type a chain name directly to select it."),
        Notice::EnterIbcDenom => String::from_str("Enter IBC denom (e.g., ibc/ABC123...):"),
        Notice::EnterPoolId => String::from_str("Enter a pool id (a number):"),
        Notice::EnterTicker => String::from_str("Enter a token ticker (e.g., OSMO):"),
        Notice::InvalidIbcDenom => String::from_str("Please enter a valid IBC denom (e.g., ibc/ABC123...)"),
        Notice::InvalidPoolId => String::from_str("Please enter a valid pool id (a number)."),
        Notice::InvalidOption => String::from_str("Invalid option number. Please try again."),
        Notice::IbcNotForTestnets => String::from_str("IBC-ID is not available for testnets."),
        Notice::ChainNotFound => String::from_str("Chain not found. Use /start to see available chains or type a valid chain name."),
        Notice::Unrecognized => String::from_str("Session expired or invalid state. Please use /start to begin again."),
        Notice::NoHealthyRest => String::from_str("No healthy REST endpoint found for this chain"),
        Notice::LookupFailed => String::from_str("The lookup failed. Please try again later."),
        Notice::UnknownTicker => String::from_str("No asset of this chain has that ticker and a price id."),
    }
}

} // verus!
