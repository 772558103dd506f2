//! The lookups that a chain's menu leads to: IBC denom traces, pools and
//! token prices. Each is a GET of a URL built here, whose response is read here.

use vstd::prelude::*;
use crate::health::{trim_slashes, trim_trailing_slashes};
use crate::json::{is_json, json_text_at, json_valid, text_at};
use crate::registry::AssetListRecord;
use crate::session::PoolAction;
use crate::text::{decimal, folded_all, join2, join3, lower_of, names_of, position_folded, position_from, u64_text};

verus! {

/// The URL that traces the IBC denom hash `hash` through the REST endpoint `rest`.
pub open spec fn denom_trace_url_of(rest: Seq<char>, hash: Seq<char>) -> Seq<char> {
    trim_slashes(rest) + "/ibc/apps/transfer/v1/denom_traces/"@ + hash
}

/// The URL that traces an IBC denom hash through a REST endpoint.
pub fn denom_trace_url(rest: &str, hash: &str) -> (r: String)
    ensures
        r@ == denom_trace_url_of(rest@, hash@),
{
    join3(trim_trailing_slashes(rest), "/ibc/apps/transfer/v1/denom_traces/", hash)
}

/// What a denom trace response says of `hash`: the transfer path (empty where
/// none is given) and the base denom (the hash itself where none is given, as
/// for a hash that is already a base denom); nothing where it is not JSON.
pub open spec fn denom_trace_of(doc: Seq<char>, hash: Seq<char>) -> Option<(Seq<char>, Seq<char>)> {
    if json_valid(doc) {
        Some(
            (
                match json_text_at(doc, "/denom_trace/path"@) {
                    Some(p) => p,
                    None => Seq::empty(),
                },
                match json_text_at(doc, "/denom_trace/base_denom"@) {
                    Some(b) => b,
                    None => hash,
                },
            ),
        )
    } else {
        None
    }
}

/// What a denom trace response says of `hash`: the path and the base denom.
pub fn denom_trace(doc: &str, hash: &str) -> (r: Option<(String, String)>)
    ensures
        match r {
            Some((p, b)) => denom_trace_of(doc@, hash@) == Some((p@, b@)),
            None => denom_trace_of(doc@, hash@) is None,
        },
{
    if !is_json(doc) {
        return None;
    }
    let path = match text_at(doc, "/denom_trace/path") {
        Some(p) => p,
        None => String::new(),
    };
    let base = match text_at(doc, "/denom_trace/base_denom") {
        Some(b) => b,
        None => String::from_str(hash),
    };
    Some((path, base))
}

/// The message that reports a denom trace, or the failure to get one.
pub open spec fn trace_message(trace: Option<(Seq<char>, Seq<char>)>) -> Seq<char> {
    match trace {
        Some((p, b)) => if p.len() > 0 {
            "Path: "@ + p + "\nBase Denomination: "@ + b
        } else {
            "Base Denomination: "@ + b
        },
        None => "Failed to fetch IBC denom trace"@,
    }
}

/// The message that reports a denom trace, or the failure to get one.
pub fn trace_text(trace: &Option<(String, String)>) -> (r: String)
    ensures
        r@ == trace_message(
            match trace {
                Some((p, b)) => Some((p@, b@)),
                None => None,
            },
        ),
{
    match trace {
        Some((p, b)) => {
            if p.unicode_len() > 0 {
                let mut t = join2("Path: ", p.as_str());
                t.append("\nBase Denomination: ");
                t.append(b.as_str());
                t
            } else {
                join2("Base Denomination: ", b.as_str())
            }
        },
        None => String::from_str("Failed to fetch IBC denom trace"),
    }
}

/// The path, under a REST endpoint, of the query of pool `id`.
pub open spec fn pool_path(action: PoolAction, id: u64) -> Seq<char> {
    match action {
        PoolAction::Info => "/osmosis/poolmanager/v1beta1/pools/"@ + decimal(id as nat),
        PoolAction::Incentives => "/osmosis/pool-incentives/v1beta1/gauge-ids/"@ + decimal(id as nat),
    }
}

/// The URL that queries pool `id` through the REST endpoint `rest`.
pub fn pool_url(rest: &str, action: PoolAction, id: u64) -> (r: String)
    ensures
        r@ == trim_slashes(rest@) + pool_path(action, id),
{
    let number = u64_text(id);
    let prefix = match action {
        PoolAction::Info => "/osmosis/poolmanager/v1beta1/pools/",
        PoolAction::Incentives => "/osmosis/pool-incentives/v1beta1/gauge-ids/",
    };
    join3(trim_trailing_slashes(rest), prefix, number.as_str())
}

/// The URL that looks the US dollar price of the coin with price id `id` up.
pub fn price_url(id: &str) -> (r: String)
    ensures
        r@ == "https://api.coingecko.com/api/v3/simple/price?ids="@ + id@ + "&vs_currencies=usd"@,
{
    join3("https://api.coingecko.com/api/v3/simple/price?ids=", id, "&vs_currencies=usd")
}

/// The symbols of a chain's assets, in order.
pub open spec fn symbols(a: AssetListRecord) -> Seq<Seq<char>> {
    a.assets@.map_values(|x: crate::registry::AssetRecord| x.symbol@)
}

/// The price id of the first asset of `a` whose symbol is `ticker`, case
/// ignored, if that asset has one.
pub open spec fn price_id_of(a: AssetListRecord, ticker: Seq<char>) -> Option<Seq<char>> {
    match position_from(folded_all(symbols(a)), lower_of(ticker), 0) {
        Some(i) => if a.assets@[i].coingecko_id@.len() > 0 {
            Some(a.assets@[i].coingecko_id@)
        } else {
            None
        },
        None => None,
    }
}

/// The price id of the asset of a chain that `ticker` names.
pub fn price_id(a: &AssetListRecord, ticker: &str) -> (r: Option<String>)
    ensures
        match r {
            Some(id) => price_id_of(*a, ticker@) == Some(id@),
            None => price_id_of(*a, ticker@) is None,
        },
{
    let mut syms: Vec<String> = Vec::new();
    let mut i: usize = 0;
    while i < a.assets.len()
        invariant
            i <= a.assets@.len(),
            names_of(syms@) == symbols(*a).subrange(0, i as int),
        decreases a.assets.len() - i,
    {
        let ghost before = syms@;
        let s = a.assets[i].symbol.clone();
        syms.push(s);
        assert(names_of(syms@) =~= names_of(before).push(s@));
        assert(names_of(syms@) =~= symbols(*a).subrange(0, i as int + 1));
        i = i + 1;
    }
    assert(names_of(syms@) =~= symbols(*a));
    match position_folded(&syms, ticker) {
        Some(k) => {
            let id = &a.assets[k].coingecko_id;
            if id.unicode_len() > 0 {
                Some(id.clone())
            } else {
                None
            }
        },
        None => None,
    }
}

/// The longest a query's response is shown.
pub const SHOWN_LIMIT: usize = 3500;

/// A query's response as shown: at most `SHOWN_LIMIT` characters of it.
pub open spec fn shown_response(body: Seq<char>) -> Seq<char> {
    if body.len() <= SHOWN_LIMIT {
        body
    } else {
        body.subrange(0, SHOWN_LIMIT as int)
    }
}

/// A query's response as shown.
pub fn response_text(body: &str) -> (r: String)
    ensures
        r@ == shown_response(body@),
{
    let n = body.unicode_len();
    if n <= SHOWN_LIMIT {
        String::from_str(body)
    } else {
        String::from_str(body.substring_char(0, SHOWN_LIMIT))
    }
}

} // verus!
