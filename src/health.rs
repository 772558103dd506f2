//! Choosing a live endpoint among the candidates for a chain service.
//!
//! Candidates are probed one at a time, in their order; the first one judged
//! healthy is chosen. A probe is an HTTP GET of a liveness path, which the
//! caller makes; a candidate is healthy if it is not excluded by policy, the
//! response is a success, and its body carries a block time less than a minute
//! old.

use vstd::prelude::*;
use crate::json::{json_text_at, text_at};
use crate::registry::Endpoint;
use crate::text::{has_prefix, join2, starts_with};

verus! {

/// Which liveness path a probe reads.
#[derive(Clone, Copy, Debug, PartialEq, Eq)]
pub enum ProbeKind {
    /// A Tendermint RPC endpoint.
    Rpc,
    /// A Cosmos REST endpoint.
    Rest,
}

/// The path that a probe of `kind` appends to an endpoint's address.
pub open spec fn liveness_path(kind: ProbeKind) -> Seq<char> {
    match kind {
        ProbeKind::Rpc => "/status"@,
        ProbeKind::Rest => "/cosmos/base/tendermint/v1beta1/blocks/latest"@,
    }
}

/// `s` without its trailing slashes.
pub open spec fn trim_slashes(s: Seq<char>) -> Seq<char>
    decreases s.len(),
{
    if s.len() > 0 && s.last() == '/' {
        trim_slashes(s.drop_last())
    } else {
        s
    }
}

/// Whether policy lets `address` be probed: it is not empty and not plain `http://`.
pub open spec fn is_probeable(address: Seq<char>) -> bool {
    address.len() > 0 && !has_prefix(address, "http://"@)
}

/// The URL that a probe of `kind` fetches for `address`, if policy lets it be probed.
pub open spec fn probe_url_of(address: Seq<char>, kind: ProbeKind) -> Option<Seq<char>> {
    if is_probeable(address) {
        Some(trim_slashes(address) + liveness_path(kind))
    } else {
        None
    }
}

/// The block time, as text, that a liveness response of `kind` reports.
pub open spec fn block_time_text(doc: Seq<char>, kind: ProbeKind) -> Option<Seq<char>> {
    match kind {
        ProbeKind::Rpc => match json_text_at(doc, "/result/sync_info/latest_block_time"@) {
            Some(t) => Some(t),
            None => json_text_at(doc, "/sync_info/latest_block_time"@),
        },
        ProbeKind::Rest => json_text_at(doc, "/block/header/time"@),
    }
}

/// The instant that an RFC 3339 timestamp denotes, in seconds since the Unix epoch.
pub uninterp spec fn rfc3339_seconds(s: Seq<char>) -> Option<i64>;

/// Relies on chrono::DateTime::parse_from_rfc3339 and DateTime::timestamp: the
/// seconds since the epoch of a timestamp, which depend on its text alone.
#[verifier::external_body]
fn parse_rfc3339(s: &str) -> (r: Option<i64>)
    ensures
        r == rfc3339_seconds(s@),
{
    chrono::DateTime::parse_from_rfc3339(s).ok().map(|t| t.timestamp())
}

/// Whether a block made at `block_secs` is less than a minute old at `now_secs`.
pub open spec fn recent(block_secs: i64, now_secs: i64) -> bool {
    now_secs - block_secs < 60
}

/// Whether a liveness response body of `kind` shows a chain that is not stalled at `now_secs`.
pub open spec fn healthy_body(doc: Seq<char>, kind: ProbeKind, now_secs: i64) -> bool {
    match block_time_text(doc, kind) {
        Some(t) => match rfc3339_seconds(t) {
            Some(b) => recent(b, now_secs),
            None => false,
        },
        None => false,
    }
}

/// What a probe got back: the HTTP status and the body.
#[derive(Clone, Debug, PartialEq, Eq)]
pub struct ProbeResponse {
    pub status: u16,
    pub body: String,
}

/// Whether a probe's outcome (`None`: no response, a timeout, or an unreadable
/// body) judges the endpoint healthy at `now_secs`.
pub open spec fn healthy_response(response: Option<ProbeResponse>, kind: ProbeKind, now_secs: i64) -> bool {
    match response {
        Some(p) => 200 <= p.status < 300 && healthy_body(p.body@, kind, now_secs),
        None => false,
    }
}

pub fn trim_trailing_slashes(s: &str) -> (r: &str)
    ensures
        r@ == trim_slashes(s@),
{
    let n = s.unicode_len();
    let mut end: usize = n;
    assert(s@.subrange(0, n as int) =~= s@);
    while end > 0 && s.get_char(end - 1) == '/'
        invariant
            n == s@.len(),
            end <= n,
            trim_slashes(s@) == trim_slashes(s@.subrange(0, end as int)),
        decreases end,
    {
        assert(s@.subrange(0, end as int).drop_last() =~= s@.subrange(0, end as int - 1));
        end = end - 1;
    }
    s.substring_char(0, end)
}

/// The URL to probe for `address`, or `None` where policy excludes the address.
pub fn probe_url(address: &str, kind: ProbeKind) -> (r: Option<String>)
    ensures
        r is Some <==> probe_url_of(address@, kind) is Some,
        r is Some ==> probe_url_of(address@, kind) == Some(r->0@),
{
    if address.unicode_len() == 0 || starts_with(address, "http://") {
        return None;
    }
    let base = trim_trailing_slashes(address);
    let path = match kind {
        ProbeKind::Rpc => "/status",
        ProbeKind::Rest => "/cosmos/base/tendermint/v1beta1/blocks/latest",
    };
    Some(join2(base, path))
}

/// The block time text that a liveness response of `kind` reports.
pub fn block_time(doc: &str, kind: ProbeKind) -> (r: Option<String>)
    ensures
        r is Some <==> block_time_text(doc@, kind) is Some,
        r is Some ==> block_time_text(doc@, kind) == Some(r->0@),
{
    match kind {
        ProbeKind::Rpc => match text_at(doc, "/result/sync_info/latest_block_time") {
            Some(t) => Some(t),
            None => text_at(doc, "/sync_info/latest_block_time"),
        },
        ProbeKind::Rest => text_at(doc, "/block/header/time"),
    }
}

/// Whether a block made at `block_secs` is less than a minute old at `now_secs`.
pub fn is_recent(block_secs: i64, now_secs: i64) -> (r: bool)
    ensures
        r == recent(block_secs, now_secs),
{
    (now_secs as i128) - (block_secs as i128) < 60
}

/// Whether a probe's outcome judges the endpoint healthy at `now_secs`.
pub fn probe_verdict(response: &Option<ProbeResponse>, kind: ProbeKind, now_secs: i64) -> (r: bool)
    ensures
        r == healthy_response(*response, kind, now_secs),
{
    match response {
        Some(p) => {
            if p.status < 200 || p.status >= 300 {
                return false;
            }
            match block_time(p.body.as_str(), kind) {
                Some(t) => match parse_rfc3339(t.as_str()) {
                    Some(b) => is_recent(b, now_secs),
                    None => false,
                },
                None => false,
            }
        },
        None => false,
    }
}

/// The next step of choosing an endpoint.
#[derive(Clone, Debug, PartialEq, Eq)]
pub enum Selection {
    /// Probe candidate `index` at `url`, and hand the verdict to `after_probe`.
    Probe { index: usize, url: String },
    /// This address is the first healthy candidate.
    Chosen(String),
    /// No candidate is healthy.
    Exhausted,
}

/// The addresses of the candidates, in order.
pub open spec fn addresses(endpoints: Seq<Endpoint>) -> Seq<Seq<char>> {
    endpoints.map_values(|e: Endpoint| e.address@)
}

/// The first candidate from `from` on that policy lets be probed.
pub open spec fn next_probeable(addrs: Seq<Seq<char>>, from: int) -> Option<int>
    decreases addrs.len() - from,
{
    if from < 0 || from >= addrs.len() {
        None
    } else if is_probeable(addrs[from]) {
        Some(from)
    } else {
        next_probeable(addrs, from + 1)
    }
}

/// Whether `r` is the step that goes on from candidate `from`: probing the next
/// candidate that may be probed, or giving up where there is none.
pub open spec fn continues_from(r: Selection, addrs: Seq<Seq<char>>, kind: ProbeKind, from: int) -> bool {
    match next_probeable(addrs, from) {
        Some(i) => r matches Selection::Probe { index, url } && index == i && probe_url_of(addrs[i], kind)
            == Some(url@),
        None => r is Exhausted,
    }
}

/// The candidate that is chosen from `from` on, when a probe of candidate `i`
/// would judge it healthy iff `verdicts[i]`: the first that may be probed and is healthy.
pub open spec fn chosen_from(addrs: Seq<Seq<char>>, verdicts: Seq<bool>, from: int) -> Option<int>
    decreases addrs.len() - from,
{
    if from < 0 || from >= addrs.len() {
        None
    } else if is_probeable(addrs[from]) && verdicts[from] {
        Some(from)
    } else {
        chosen_from(addrs, verdicts, from + 1)
    }
}

fn continue_from(endpoints: &Vec<Endpoint>, kind: ProbeKind, from: usize) -> (r: Selection)
    ensures
        continues_from(r, addresses(endpoints@), kind, from as int),
{
    let ghost addrs = addresses(endpoints@);
    let mut i: usize = from;
    while i < endpoints.len()
        invariant
            from <= i,
            addrs == addresses(endpoints@),
            next_probeable(addrs, from as int) == next_probeable(addrs, i as int),
        decreases endpoints.len() - i,
    {
        let address = endpoints[i].address.as_str();
        match probe_url(address, kind) {
            Some(url) => {
                return Selection::Probe { index: i, url };
            },
            None => {},
        }
        i = i + 1;
    }
    Selection::Exhausted
}

/// The first step of choosing among `endpoints`: probe the first candidate
/// that policy lets be probed, or give up where there is none.
pub fn first_probe(endpoints: &Vec<Endpoint>, kind: ProbeKind) -> (r: Selection)
    ensures
        continues_from(r, addresses(endpoints@), kind, 0),
{
    continue_from(endpoints, kind, 0)
}

/// The step after the probe of candidate `index` gave `healthy`: choose it if
/// healthy, else go on with the candidates after it.
pub fn after_probe(endpoints: &Vec<Endpoint>, kind: ProbeKind, index: usize, healthy: bool) -> (r: Selection)
    requires
        index < endpoints@.len(),
    ensures
        healthy ==> (r matches Selection::Chosen(a) && a@ == addresses(endpoints@)[index as int]),
        !healthy ==> continues_from(r, addresses(endpoints@), kind, index + 1),
{
    if healthy {
        Selection::Chosen(endpoints[index].address.clone())
    } else {
        let n = endpoints.len();
        assert(index < n);
        continue_from(endpoints, kind, index + 1)
    }
}

/// Choosing goes by first match: from any candidate on, the step that
/// `continues_from` takes (probe the next candidate that may be probed, choose it
/// if healthy, else go on after it) reaches the first candidate that may be
/// probed and is healthy, or none; and that is the first such candidate of the
/// list, every one before it being excluded or unhealthy.
pub proof fn lemma_selection_is_first_healthy(addrs: Seq<Seq<char>>, verdicts: Seq<bool>, from: int)
    requires
        0 <= from,
        verdicts.len() == addrs.len(),
    ensures
        next_probeable(addrs, from) is None ==> chosen_from(addrs, verdicts, from) is None,
        next_probeable(addrs, from) is Some ==> ({
            let i = next_probeable(addrs, from)->0;
            chosen_from(addrs, verdicts, from) == if verdicts[i] {
                Some(i)
            } else {
                chosen_from(addrs, verdicts, i + 1)
            }
        }),
        chosen_from(addrs, verdicts, from) is Some ==> ({
            let i = chosen_from(addrs, verdicts, from)->0;
            &&& from <= i < addrs.len()
            &&& is_probeable(addrs[i]) && verdicts[i]
            &&& forall|j: int| from <= j < i ==> !(is_probeable(addrs[j]) && verdicts[j])
        }),
        chosen_from(addrs, verdicts, from) is None ==> forall|j: int|
            from <= j < addrs.len() ==> !(is_probeable(addrs[j]) && verdicts[j]),
    decreases addrs.len() - from,
{
    if from < addrs.len() {
        lemma_selection_is_first_healthy(addrs, verdicts, from + 1);
        if let Some(i) = chosen_from(addrs, verdicts, from) {
            assert forall|j: int| from <= j < i implies !(is_probeable(addrs[j]) && verdicts[j]) by {
                if j > from {
                }
            }
        } else {
            assert forall|j: int| from <= j < addrs.len() implies !(is_probeable(addrs[j]) && verdicts[j]) by {
                if j > from {
                }
            }
        }
    }
}

/// The run of the selector from candidate `from` on, when a probe of
/// candidate `i` would judge it healthy iff `verdicts[i]`: the candidates
/// probed, in order, and the one chosen. Candidates that policy excludes are
/// passed over unprobed, and the first healthy one ends the run.
pub open spec fn run_from(addrs: Seq<Seq<char>>, verdicts: Seq<bool>, from: int) -> (Seq<int>, Option<int>)
    decreases addrs.len() - from,
{
    if from < 0 || from >= addrs.len() {
        (Seq::empty(), None)
    } else if !is_probeable(addrs[from]) {
        run_from(addrs, verdicts, from + 1)
    } else if verdicts[from] {
        (seq![from], Some(from))
    } else {
        let rest = run_from(addrs, verdicts, from + 1);
        (seq![from] + rest.0, rest.1)
    }
}

/// The candidates from `from` up to `end` that policy lets be probed, in order.
pub open spec fn probeable_between(addrs: Seq<Seq<char>>, from: int, end: int) -> Seq<int>
    decreases end - from,
{
    if from < 0 || from >= end {
        Seq::empty()
    } else if is_probeable(addrs[from]) {
        seq![from] + probeable_between(addrs, from + 1, end)
    } else {
        probeable_between(addrs, from + 1, end)
    }
}

/// The whole run of the selector: the steps that `first_probe` and
/// `after_probe` take (probe the next candidate that may be probed, choose it
/// if healthy, else go on after it; give up where none is left) make up the
/// run `run_from`; that run chooses the first candidate that may be probed and
/// is healthy (`chosen_from`, none where there is none), and probes exactly the
/// candidates that may be probed, in list order, up to the chosen one (all of
/// them where none is chosen).
pub proof fn lemma_selector_run(addrs: Seq<Seq<char>>, verdicts: Seq<bool>, from: int)
    requires
        0 <= from,
        verdicts.len() == addrs.len(),
    ensures
        next_probeable(addrs, from) is None ==> run_from(addrs, verdicts, from) == (Seq::<int>::empty(), None::<int>),
        next_probeable(addrs, from) is Some ==> ({
            let i = next_probeable(addrs, from)->0;
            let rest = run_from(addrs, verdicts, i + 1);
            run_from(addrs, verdicts, from) == if verdicts[i] {
                (seq![i], Some(i))
            } else {
                (seq![i] + rest.0, rest.1)
            }
        }),
        run_from(addrs, verdicts, from).1 == chosen_from(addrs, verdicts, from),
        run_from(addrs, verdicts, from).0 == probeable_between(
            addrs,
            from,
            match chosen_from(addrs, verdicts, from) {
                Some(c) => c + 1,
                None => addrs.len() as int,
            },
        ),
    decreases addrs.len() - from,
{
    lemma_selection_is_first_healthy(addrs, verdicts, from);
    if from < addrs.len() {
        lemma_selector_run(addrs, verdicts, from + 1);
        lemma_selection_is_first_healthy(addrs, verdicts, from + 1);
        if is_probeable(addrs[from]) && verdicts[from] {
            assert(probeable_between(addrs, from + 1, from + 1) =~= Seq::<int>::empty());
            assert(seq![from] + Seq::<int>::empty() =~= seq![from]);
        }
    }
}

} // verus!
