//! A time-to-live cache of registry records, in four keyspaces.
//!
//! A record is fresh while its age is below the cache's time to live; a stale
//! record is never handed out and is evicted when an access finds it. A miss
//! does not fetch by itself: it answers with the request to make upstream, and
//! the caller hands the outcome back, which is then stored and returned.

use vstd::prelude::*;
use vstd::string::*;
use crate::registry::{AssetListRecord, ChainRecord, PathRecord, Resource};
use crate::json::{array_len, json_array_len, json_text_at, text_at};
use crate::text::{
    decimal, join2, join3, lemma_lex_total_antisym, lex_le, lex_le_str, names_of, same_text, u64_text,
};
use dashmap::DashMap;

verus! {

#[verifier::external_type_specification]
#[verifier::external_body]
#[verifier::reject_recursive_types(K)]
#[verifier::reject_recursive_types(V)]
#[verifier::reject_recursive_types(S)]
pub struct ExDashMap<K, V, S>(DashMap<K, V, S>);

/// The entries that a keyspace of the cache holds, by key.
pub uninterp spec fn stored(m: DashMap<String, CachedItem<Resource>>) -> Map<Seq<char>, CachedItem<Resource>>;

/// Relies on DashMap::new: a new map holds no entry.
#[verifier::external_body]
fn new_keyspace() -> (r: DashMap<String, CachedItem<Resource>>)
    ensures
        forall|k: Seq<char>| !#[trigger] stored(r).contains_key(k),
{
    DashMap::new()
}

/// Relies on DashMap::get: the entry under the key, if there is one (a copy of it).
#[verifier::external_body]
fn read_entry(m: &DashMap<String, CachedItem<Resource>>, key: &str) -> (r: Option<CachedItem<Resource>>)
    ensures
        stored(*m).contains_key(key@) ==> r == Some(stored(*m)[key@]),
        !stored(*m).contains_key(key@) ==> r is None,
{
    m.get(key).map(|e| e.value().clone())
}

/// Relies on DashMap::insert: the key now maps to the value, the other keys are kept.
#[verifier::external_body]
fn write_entry(m: &mut DashMap<String, CachedItem<Resource>>, key: String, value: CachedItem<Resource>)
    ensures
        stored(*final(m)) == stored(*old(m)).insert(key@, value),
{
    m.insert(key, value);
}

/// Relies on DashMap::remove: the key no longer maps to anything, the other keys are kept.
#[verifier::external_body]
fn drop_entry(m: &mut DashMap<String, CachedItem<Resource>>, key: &str)
    ensures
        stored(*final(m)) == stored(*old(m)).remove(key@),
{
    m.remove(key);
}

/// A cached payload and the time, in seconds, at which it was fetched.
#[derive(Clone, Debug, PartialEq, Eq)]
pub struct CachedItem<T> {
    pub data: T,
    pub timestamp: u64,
}

/// How long ago, in seconds, `fetched_at` was at `now`; a clock that went back counts as no time.
pub open spec fn age(fetched_at: u64, now: u64) -> int {
    if now >= fetched_at {
        now - fetched_at
    } else {
        0
    }
}

/// Whether a record fetched at `fetched_at` may still be handed out at `now`.
pub open spec fn is_fresh(fetched_at: u64, now: u64, ttl: u64) -> bool {
    age(fetched_at, now) < ttl
}

/// What a keyspace holds after an access at `now` to `key`: a stale entry under
/// `key` is evicted, everything else is kept.
pub open spec fn after_access(
    e: Map<Seq<char>, CachedItem<Resource>>,
    key: Seq<char>,
    now: u64,
    ttl: u64,
) -> Map<Seq<char>, CachedItem<Resource>> {
    if e.contains_key(key) && is_fresh(e[key].timestamp, now, ttl) {
        e
    } else {
        e.remove(key)
    }
}

/// The payload under `key` that an access at `now` hands out, if it is fresh.
pub open spec fn fresh_payload(
    e: Map<Seq<char>, CachedItem<Resource>>,
    key: Seq<char>,
    now: u64,
    ttl: u64,
) -> Option<Resource> {
    if e.contains_key(key) && is_fresh(e[key].timestamp, now, ttl) {
        Some(e[key].data)
    } else {
        None
    }
}

fn is_fresh_at(fetched_at: u64, now: u64, ttl: u64) -> (r: bool)
    ensures
        r == is_fresh(fetched_at, now, ttl),
{
    if now >= fetched_at {
        now - fetched_at < ttl
    } else {
        0 < ttl
    }
}

/// Looks `key` up at `now`: hands out a fresh payload, evicts a stale one.
fn take_fresh(m: &mut DashMap<String, CachedItem<Resource>>, key: &str, now: u64, ttl: u64) -> (r: Option<Resource>)
    ensures
        r == fresh_payload(stored(*old(m)), key@, now, ttl),
        stored(*final(m)) == after_access(stored(*old(m)), key@, now, ttl),
{
    match read_entry(m, key) {
        Some(item) => {
            if is_fresh_at(item.timestamp, now, ttl) {
                Some(item.data)
            } else {
                drop_entry(m, key);
                None
            }
        },
        None => {
            assert(stored(*m).remove(key@) =~= stored(*m));
            None
        },
    }
}

/// Stores `data` under `key` as fetched at `now`, and hands back the stored payload.
fn store(m: &mut DashMap<String, CachedItem<Resource>>, key: &str, data: Resource, now: u64) -> (r: Resource)
    ensures
        stored(*final(m)) == stored(*old(m)).insert(key@, CachedItem { data, timestamp: now }),
        r == data,
{
    let k = String::from_str(key);
    write_entry(m, k, CachedItem { data, timestamp: now });
    let back = read_entry(m, key);
    back.unwrap().data
}

/// What the cache asks the caller to fetch upstream.
#[derive(Clone, Debug, PartialEq, Eq)]
pub enum Request {
    /// The chain record under `key`; `fallback` marks the second, testnet, attempt.
    Chain { key: String, fallback: bool },
    /// The asset list under `key`; `fallback` marks the second, testnet, attempt.
    Assets { key: String, fallback: bool },
    /// The names of the registry's top-level entries.
    ChainNames,
    /// The listing of the registry's testnet partition.
    TestnetListing,
    /// The IBC path between two chains.
    Path { chain_a: String, chain_b: String },
}

/// The outcome of one upstream fetch.
#[derive(Clone, Debug, PartialEq, Eq)]
pub enum Fetched<T> {
    Found(T),
    /// Upstream has no such resource.
    Missing,
    /// A network, timeout or parse failure.
    Failed(String),
}

/// Where a cache access stands.
#[derive(Clone, Debug, PartialEq, Eq)]
pub enum Lookup<T> {
    Ready(T),
    Missing,
    Failed(String),
    /// The caller is to make this request and hand its outcome back.
    Fetch(Request),
}

/// Whether `r` asks for the chain record under `key`.
pub open spec fn asks_chain<T>(r: Lookup<T>, key: Seq<char>, fallback: bool) -> bool {
    r matches Lookup::Fetch(Request::Chain { key: k, fallback: f }) && k@ == key && f == fallback
}

/// Whether `r` asks for the asset list under `key`.
pub open spec fn asks_assets<T>(r: Lookup<T>, key: Seq<char>, fallback: bool) -> bool {
    r matches Lookup::Fetch(Request::Assets { key: k, fallback: f }) && k@ == key && f == fallback
}

/// Whether `r` asks for the path between `a` and `b`.
pub open spec fn asks_path<T>(r: Lookup<T>, a: Seq<char>, b: Seq<char>) -> bool {
    r matches Lookup::Fetch(Request::Path { chain_a: x, chain_b: y }) && x@ == a && y@ == b
}

/// The key under which the testnet partition of the registry holds `name`.
pub open spec fn testnet_key(name: Seq<char>) -> Seq<char> {
    "testnets/"@ + name
}

/// The key of the path between two chains: both names, the lesser first, joined by a dash.
pub open spec fn path_key(a: Seq<char>, b: Seq<char>) -> Seq<char> {
    if lex_le(a, b) {
        a + "-"@ + b
    } else {
        b + "-"@ + a
    }
}

/// The key under which the mainnet listing is kept.
pub open spec fn mainnets_key() -> Seq<char> {
    "mainnets"@
}

/// The key under which the testnet listing is kept.
pub open spec fn testnets_key() -> Seq<char> {
    "testnets"@
}

/// `s` without the entries equal to `x`, the others in order.
pub open spec fn without(s: Seq<Seq<char>>, x: Seq<char>) -> Seq<Seq<char>>
    decreases s.len(),
{
    if s.len() == 0 {
        Seq::empty()
    } else if s.last() == x {
        without(s.drop_last(), x)
    } else {
        without(s.drop_last(), x).push(s.last())
    }
}

/// The names of `names` other than `x`, in order.
fn drop_name(names: &Vec<String>, x: &str) -> (r: Vec<String>)
    ensures
        names_of(r@) == without(names_of(names@), x@),
{
    let mut out: Vec<String> = Vec::new();
    let mut i: usize = 0;
    while i < names.len()
        invariant
            i <= names@.len(),
            names_of(out@) == without(names_of(names@.subrange(0, i as int)), x@),
        decreases names.len() - i,
    {
        let name = &names[i];
        assert(names@.subrange(0, i as int + 1).drop_last() =~= names@.subrange(0, i as int));
        assert(names_of(names@.subrange(0, i as int + 1)).drop_last() =~= names_of(names@.subrange(0, i as int)));
        if !same_text(name.as_str(), x) {
            out.push(name.clone());
            assert(names_of(out@) =~= without(names_of(names@.subrange(0, i as int)), x@).push(name@));
        }
        i = i + 1;
    }
    assert(names@.subrange(0, names@.len() as int) =~= names@);
    out
}

/// The JSON pointer to `field` (a `/` and a name) of entry `i` of a top-level array.
pub open spec fn entry_pointer(i: nat, field: Seq<char>) -> Seq<char> {
    "/"@ + decimal(i) + field
}

/// Whether a listed name is hidden: it begins with `_` or `.`.
pub open spec fn is_hidden(name: Seq<char>) -> bool {
    name.len() > 0 && (name[0] == '_' || name[0] == '.')
}

/// The directories among the entries `i` up to `n` of a registry listing (a
/// JSON array of entries with a `name` and a `type`): the names of those of
/// type `dir` that are not hidden, in order; an entry without a name is skipped.
pub open spec fn listed_dirs_from(doc: Seq<char>, i: nat, n: nat) -> Seq<Seq<char>>
    decreases n - i,
{
    if i >= n {
        Seq::empty()
    } else {
        let rest = listed_dirs_from(doc, i + 1, n);
        match json_text_at(doc, entry_pointer(i, "/name"@)) {
            Some(name) => if json_text_at(doc, entry_pointer(i, "/type"@)) == Some("dir"@) && !is_hidden(name) {
                seq![name] + rest
            } else {
                rest
            },
            None => rest,
        }
    }
}

/// The directory names of a registry listing, if it is a JSON array.
pub open spec fn listing_of(doc: Seq<char>) -> Option<Seq<Seq<char>>> {
    match json_array_len(doc) {
        Some(n) => Some(listed_dirs_from(doc, 0, n as nat)),
        None => None,
    }
}

fn hidden(name: &str) -> (r: bool)
    ensures
        r == is_hidden(name@),
{
    if name.unicode_len() == 0 {
        false
    } else {
        let c = name.get_char(0);
        c == '_' || c == '.'
    }
}

/// The directory names of a registry listing, in order; `None` where it is not
/// a JSON array.
pub fn listed_dirs(doc: &str) -> (r: Option<Vec<String>>)
    ensures
        match r {
            Some(v) => listing_of(doc@) == Some(names_of(v@)),
            None => listing_of(doc@) is None,
        },
{
    let n = match array_len(doc) {
        Some(n) => n,
        None => {
            return None;
        },
    };
    let mut out: Vec<String> = Vec::new();
    let mut i: usize = 0;
    while i < n
        invariant
            i <= n,
            json_array_len(doc@) == Some(n),
            names_of(out@) + listed_dirs_from(doc@, i as nat, n as nat) == listed_dirs_from(doc@, 0, n as nat),
        decreases n - i,
    {
        let index = u64_text(i as u64);
        let name_at = join3("/", index.as_str(), "/name");
        let type_at = join3("/", index.as_str(), "/type");
        if let Some(name) = text_at(doc, name_at.as_str()) {
            let is_dir = match text_at(doc, type_at.as_str()) {
                Some(t) => same_text(t.as_str(), "dir"),
                None => false,
            };
            let ghost before = names_of(out@);
            if is_dir && !hidden(name.as_str()) {
                out.push(name);
                assert(names_of(out@) =~= before.push(name@));
                assert(before + (seq![name@] + listed_dirs_from(doc@, i as nat + 1, n as nat)) =~= before.push(name@)
                    + listed_dirs_from(doc@, i as nat + 1, n as nat));
            }
        }
        i = i + 1;
    }
    assert(names_of(out@) + Seq::<Seq<char>>::empty() =~= names_of(out@));
    Some(out)
}

/// The key of the path between `a` and `b`.
fn path_key_of(a: &str, b: &str) -> (r: String)
    ensures
        r@ == path_key(a@, b@),
{
    if lex_le_str(a, b) {
        join3(a, "-", b)
    } else {
        join3(b, "-", a)
    }
}

/// The registry cache: chain records, asset lists, the two chain-name
/// listings and IBC paths, each in a keyspace of its own.
pub struct RegistryCache {
    chains: DashMap<String, CachedItem<Resource>>,
    assets: DashMap<String, CachedItem<Resource>>,
    chain_list: DashMap<String, CachedItem<Resource>>,
    paths: DashMap<String, CachedItem<Resource>>,
    ttl: u64,
}

impl RegistryCache {
    /// The chain records, by chain name.
    pub closed spec fn chain_entries(&self) -> Map<Seq<char>, CachedItem<Resource>> {
        stored(self.chains)
    }

    /// The asset lists, by chain name.
    pub closed spec fn asset_entries(&self) -> Map<Seq<char>, CachedItem<Resource>> {
        stored(self.assets)
    }

    /// The chain-name listings, under "mainnets" and "testnets".
    pub closed spec fn listing_entries(&self) -> Map<Seq<char>, CachedItem<Resource>> {
        stored(self.chain_list)
    }

    /// The IBC paths, by `path_key`.
    pub closed spec fn path_entries(&self) -> Map<Seq<char>, CachedItem<Resource>> {
        stored(self.paths)
    }

    /// The time to live, in seconds.
    pub closed spec fn ttl(&self) -> u64 {
        self.ttl
    }

    /// Each keyspace holds payloads of its own kind only.
    pub open spec fn wf(&self) -> bool {
        &&& forall|k: Seq<char>| #[trigger] self.chain_entries().contains_key(k)
            ==> self.chain_entries()[k].data is Chain
        &&& forall|k: Seq<char>| #[trigger] self.asset_entries().contains_key(k)
            ==> self.asset_entries()[k].data is Assets
        &&& forall|k: Seq<char>| #[trigger] self.listing_entries().contains_key(k)
            ==> self.listing_entries()[k].data is Names
        &&& forall|k: Seq<char>| #[trigger] self.path_entries().contains_key(k)
            ==> self.path_entries()[k].data is Path
    }

    /// An empty cache whose records live `ttl_minutes` minutes.
    pub fn new(ttl_minutes: u64) -> (r: Self)
        requires
            ttl_minutes <= u64::MAX / 60,
        ensures
            r.wf(),
            r.ttl() == ttl_minutes * 60,
            forall|k: Seq<char>| !#[trigger] r.chain_entries().contains_key(k),
            forall|k: Seq<char>| !#[trigger] r.asset_entries().contains_key(k),
            forall|k: Seq<char>| !#[trigger] r.listing_entries().contains_key(k),
            forall|k: Seq<char>| !#[trigger] r.path_entries().contains_key(k),
    {
        RegistryCache {
            chains: new_keyspace(),
            assets: new_keyspace(),
            chain_list: new_keyspace(),
            paths: new_keyspace(),
            ttl: ttl_minutes * 60,
        }
    }

    /// Looks a chain up at `now`: its record if a fresh one is cached, else the
    /// request for it upstream, mainnet first. A stale record is evicted.
    pub fn get_chain(&mut self, name: &str, now: u64) -> (r: Lookup<ChainRecord>)
        requires
            old(self).wf(),
        ensures
            final(self).wf(),
            final(self).ttl() == old(self).ttl(),
            final(self).chain_entries() == after_access(old(self).chain_entries(), name@, now, old(self).ttl()),
            final(self).asset_entries() == old(self).asset_entries(),
            final(self).listing_entries() == old(self).listing_entries(),
            final(self).path_entries() == old(self).path_entries(),
            match fresh_payload(old(self).chain_entries(), name@, now, old(self).ttl()) {
                Some(Resource::Chain(c)) => r == Lookup::Ready(c),
                _ => asks_chain(r, name@, false),
            },
    {
        let ttl = self.ttl;
        match take_fresh(&mut self.chains, name, now, ttl) {
            Some(Resource::Chain(c)) => Lookup::Ready(c),
            _ => Lookup::Fetch(Request::Chain { key: String::from_str(name), fallback: false }),
        }
    }

    /// Takes the outcome of fetching the chain `name` (the testnet attempt if
    /// `fallback`) at `now`: a found record is stored and handed out; a missing
    /// one on the mainnet attempt asks for the testnet key; a failure is passed on
    /// and nothing is stored.
    pub fn chain_fetched(&mut self, name: &str, fallback: bool, outcome: Fetched<ChainRecord>, now: u64) -> (r: Lookup<ChainRecord>)
        requires
            old(self).wf(),
        ensures
            final(self).wf(),
            final(self).ttl() == old(self).ttl(),
            final(self).asset_entries() == old(self).asset_entries(),
            final(self).listing_entries() == old(self).listing_entries(),
            final(self).path_entries() == old(self).path_entries(),
            match outcome {
                Fetched::Found(c) => {
                    &&& r == Lookup::Ready(c)
                    &&& final(self).chain_entries() == old(self).chain_entries().insert(
                        name@,
                        CachedItem { data: Resource::Chain(c), timestamp: now },
                    )
                },
                Fetched::Missing => {
                    &&& final(self).chain_entries() == old(self).chain_entries()
                    &&& if fallback {
                        r == Lookup::<ChainRecord>::Missing
                    } else {
                        asks_chain(r, testnet_key(name@), true)
                    }
                },
                Fetched::Failed(e) => {
                    &&& r == Lookup::<ChainRecord>::Failed(e)
                    &&& final(self).chain_entries() == old(self).chain_entries()
                },
            },
    {
        match outcome {
            Fetched::Found(c) => {
                match store(&mut self.chains, name, Resource::Chain(c), now) {
                    Resource::Chain(c) => Lookup::Ready(c),
                    _ => Lookup::Missing,
                }
            },
            Fetched::Missing => {
                if fallback {
                    Lookup::Missing
                } else {
                    let key = join2("testnets/", name);
                    Lookup::Fetch(Request::Chain { key, fallback: true })
                }
            },
            Fetched::Failed(e) => Lookup::Failed(e),
        }
    }

    /// Looks the asset list of a chain up at `now`, as `get_chain` does.
    pub fn get_assets(&mut self, name: &str, now: u64) -> (r: Lookup<AssetListRecord>)
        requires
            old(self).wf(),
        ensures
            final(self).wf(),
            final(self).ttl() == old(self).ttl(),
            final(self).asset_entries() == after_access(old(self).asset_entries(), name@, now, old(self).ttl()),
            final(self).chain_entries() == old(self).chain_entries(),
            final(self).listing_entries() == old(self).listing_entries(),
            final(self).path_entries() == old(self).path_entries(),
            match fresh_payload(old(self).asset_entries(), name@, now, old(self).ttl()) {
                Some(Resource::Assets(a)) => r == Lookup::Ready(a),
                _ => asks_assets(r, name@, false),
            },
    {
        let ttl = self.ttl;
        match take_fresh(&mut self.assets, name, now, ttl) {
            Some(Resource::Assets(a)) => Lookup::Ready(a),
            _ => Lookup::Fetch(Request::Assets { key: String::from_str(name), fallback: false }),
        }
    }

    /// Takes the outcome of fetching the asset list of `name`, as `chain_fetched` does.
    pub fn assets_fetched(&mut self, name: &str, fallback: bool, outcome: Fetched<AssetListRecord>, now: u64) -> (r: Lookup<AssetListRecord>)
        requires
            old(self).wf(),
        ensures
            final(self).wf(),
            final(self).ttl() == old(self).ttl(),
            final(self).chain_entries() == old(self).chain_entries(),
            final(self).listing_entries() == old(self).listing_entries(),
            final(self).path_entries() == old(self).path_entries(),
            match outcome {
                Fetched::Found(a) => {
                    &&& r == Lookup::Ready(a)
                    &&& final(self).asset_entries() == old(self).asset_entries().insert(
                        name@,
                        CachedItem { data: Resource::Assets(a), timestamp: now },
                    )
                },
                Fetched::Missing => {
                    &&& final(self).asset_entries() == old(self).asset_entries()
                    &&& if fallback {
                        r == Lookup::<AssetListRecord>::Missing
                    } else {
                        asks_assets(r, testnet_key(name@), true)
                    }
                },
                Fetched::Failed(e) => {
                    &&& r == Lookup::<AssetListRecord>::Failed(e)
                    &&& final(self).asset_entries() == old(self).asset_entries()
                },
            },
    {
        match outcome {
            Fetched::Found(a) => {
                match store(&mut self.assets, name, Resource::Assets(a), now) {
                    Resource::Assets(a) => Lookup::Ready(a),
                    _ => Lookup::Missing,
                }
            },
            Fetched::Missing => {
                if fallback {
                    Lookup::Missing
                } else {
                    let key = join2("testnets/", name);
                    Lookup::Fetch(Request::Assets { key, fallback: true })
                }
            },
            Fetched::Failed(e) => Lookup::Failed(e),
        }
    }

    /// Looks the IBC path between two chains up at `now`, under a key that does
    /// not depend on their order: the cached path if fresh, else the request for it.
    pub fn get_path(&mut self, chain_a: &str, chain_b: &str, now: u64) -> (r: Lookup<PathRecord>)
        requires
            old(self).wf(),
        ensures
            final(self).wf(),
            final(self).ttl() == old(self).ttl(),
            final(self).path_entries() == after_access(
                old(self).path_entries(),
                path_key(chain_a@, chain_b@),
                now,
                old(self).ttl(),
            ),
            final(self).chain_entries() == old(self).chain_entries(),
            final(self).asset_entries() == old(self).asset_entries(),
            final(self).listing_entries() == old(self).listing_entries(),
            match fresh_payload(old(self).path_entries(), path_key(chain_a@, chain_b@), now, old(self).ttl()) {
                Some(Resource::Path(p)) => r == Lookup::Ready(p),
                _ => asks_path(r, chain_a@, chain_b@),
            },
    {
        let key = path_key_of(chain_a, chain_b);
        let ttl = self.ttl;
        match take_fresh(&mut self.paths, key.as_str(), now, ttl) {
            Some(Resource::Path(p)) => Lookup::Ready(p),
            _ => Lookup::Fetch(
                Request::Path { chain_a: String::from_str(chain_a), chain_b: String::from_str(chain_b) },
            ),
        }
    }

    /// Takes the outcome of fetching the path between two chains: a found path is
    /// stored under the key of the pair and handed out; nothing else is stored.
    pub fn path_fetched(&mut self, chain_a: &str, chain_b: &str, outcome: Fetched<PathRecord>, now: u64) -> (r: Lookup<PathRecord>)
        requires
            old(self).wf(),
        ensures
            final(self).wf(),
            final(self).ttl() == old(self).ttl(),
            final(self).chain_entries() == old(self).chain_entries(),
            final(self).asset_entries() == old(self).asset_entries(),
            final(self).listing_entries() == old(self).listing_entries(),
            match outcome {
                Fetched::Found(p) => {
                    &&& r == Lookup::Ready(p)
                    &&& final(self).path_entries() == old(self).path_entries().insert(
                        path_key(chain_a@, chain_b@),
                        CachedItem { data: Resource::Path(p), timestamp: now },
                    )
                },
                Fetched::Missing => {
                    &&& r == Lookup::<PathRecord>::Missing
                    &&& final(self).path_entries() == old(self).path_entries()
                },
                Fetched::Failed(e) => {
                    &&& r == Lookup::<PathRecord>::Failed(e)
                    &&& final(self).path_entries() == old(self).path_entries()
                },
            },
    {
        match outcome {
            Fetched::Found(p) => {
                let key = path_key_of(chain_a, chain_b);
                match store(&mut self.paths, key.as_str(), Resource::Path(p), now) {
                    Resource::Path(p) => Lookup::Ready(p),
                    _ => Lookup::Missing,
                }
            },
            Fetched::Missing => Lookup::Missing,
            Fetched::Failed(e) => Lookup::Failed(e),
        }
    }

    /// Looks the mainnet chain names up at `now`: the cached listing if fresh,
    /// else the request for the registry's names.
    pub fn list_chains(&mut self, now: u64) -> (r: Lookup<Vec<String>>)
        requires
            old(self).wf(),
        ensures
            final(self).wf(),
            final(self).ttl() == old(self).ttl(),
            final(self).listing_entries() == after_access(old(self).listing_entries(), mainnets_key(), now, old(self).ttl()),
            final(self).chain_entries() == old(self).chain_entries(),
            final(self).asset_entries() == old(self).asset_entries(),
            final(self).path_entries() == old(self).path_entries(),
            match fresh_payload(old(self).listing_entries(), mainnets_key(), now, old(self).ttl()) {
                Some(Resource::Names(v)) => r == Lookup::Ready(v),
                _ => r == Lookup::<Vec<String>>::Fetch(Request::ChainNames),
            },
    {
        let ttl = self.ttl;
        match take_fresh(&mut self.chain_list, "mainnets", now, ttl) {
            Some(Resource::Names(v)) => Lookup::Ready(v),
            _ => Lookup::Fetch(Request::ChainNames),
        }
    }

    /// Takes the registry's top-level names fetched at `now`: all but the
    /// testnet partition's own entry are kept, in order, stored and handed out.
    pub fn chain_names_fetched(&mut self, outcome: Result<Vec<String>, String>, now: u64) -> (r: Lookup<Vec<String>>)
        requires
            old(self).wf(),
        ensures
            final(self).wf(),
            final(self).ttl() == old(self).ttl(),
            final(self).chain_entries() == old(self).chain_entries(),
            final(self).asset_entries() == old(self).asset_entries(),
            final(self).path_entries() == old(self).path_entries(),
            match outcome {
                Ok(names) => {
                    &&& r matches Lookup::Ready(v)
                    &&& names_of(v@) == without(names_of(names@), testnets_key())
                    &&& final(self).listing_entries() == old(self).listing_entries().insert(
                        mainnets_key(),
                        CachedItem { data: Resource::Names(v), timestamp: now },
                    )
                },
                Err(e) => {
                    &&& r == Lookup::<Vec<String>>::Failed(e)
                    &&& final(self).listing_entries() == old(self).listing_entries()
                },
            },
    {
        match outcome {
            Ok(names) => {
                let kept = drop_name(&names, "testnets");
                match store(&mut self.chain_list, "mainnets", Resource::Names(kept), now) {
                    Resource::Names(v) => Lookup::Ready(v),
                    _ => Lookup::Missing,
                }
            },
            Err(e) => Lookup::Failed(e),
        }
    }

    /// Looks the testnet chain names up at `now`: the cached listing if fresh,
    /// else the request for the registry's testnet listing.
    pub fn list_testnets(&mut self, now: u64) -> (r: Lookup<Vec<String>>)
        requires
            old(self).wf(),
        ensures
            final(self).wf(),
            final(self).ttl() == old(self).ttl(),
            final(self).listing_entries() == after_access(old(self).listing_entries(), testnets_key(), now, old(self).ttl()),
            final(self).chain_entries() == old(self).chain_entries(),
            final(self).asset_entries() == old(self).asset_entries(),
            final(self).path_entries() == old(self).path_entries(),
            match fresh_payload(old(self).listing_entries(), testnets_key(), now, old(self).ttl()) {
                Some(Resource::Names(v)) => r == Lookup::Ready(v),
                _ => r == Lookup::<Vec<String>>::Fetch(Request::TestnetListing),
            },
    {
        let ttl = self.ttl;
        match take_fresh(&mut self.chain_list, "testnets", now, ttl) {
            Some(Resource::Names(v)) => Lookup::Ready(v),
            _ => Lookup::Fetch(Request::TestnetListing),
        }
    }

    /// Takes the testnet listing (a JSON document) fetched at `now`: its
    /// directory names are stored and handed out. A listing that is not a JSON
    /// array (an error reply, say) is a failure, and nothing is stored.
    pub fn testnets_fetched(&mut self, outcome: Result<String, String>, now: u64) -> (r: Lookup<Vec<String>>)
        requires
            old(self).wf(),
        ensures
            final(self).wf(),
            final(self).ttl() == old(self).ttl(),
            final(self).chain_entries() == old(self).chain_entries(),
            final(self).asset_entries() == old(self).asset_entries(),
            final(self).path_entries() == old(self).path_entries(),
            match outcome {
                Ok(doc) => match listing_of(doc@) {
                    Some(dirs) => {
                        &&& r matches Lookup::Ready(v)
                        &&& names_of(v@) == dirs
                        &&& final(self).listing_entries() == old(self).listing_entries().insert(
                            testnets_key(),
                            CachedItem { data: Resource::Names(v), timestamp: now },
                        )
                    },
                    None => {
                        &&& r is Failed
                        &&& final(self).listing_entries() == old(self).listing_entries()
                    },
                },
                Err(e) => {
                    &&& r == Lookup::<Vec<String>>::Failed(e)
                    &&& final(self).listing_entries() == old(self).listing_entries()
                },
            },
    {
        match outcome {
            Ok(doc) => match listed_dirs(doc.as_str()) {
                Some(dirs) => match store(&mut self.chain_list, "testnets", Resource::Names(dirs), now) {
                    Resource::Names(v) => Lookup::Ready(v),
                    _ => Lookup::Missing,
                },
                None => Lookup::Failed(String::from_str("the testnet listing is not a JSON array")),
            },
            Err(e) => Lookup::Failed(e),
        }
    }
}

/// A payload stored at `t` is handed out unchanged by an access within the time
/// to live, which leaves the keyspace as it was, so that a second access within
/// it hands out the same payload again without a fetch; an access once the
/// time to live has run out finds nothing, and so asks upstream again.
pub proof fn lemma_cached_until_ttl(
    e: Map<Seq<char>, CachedItem<Resource>>,
    key: Seq<char>,
    data: Resource,
    t: u64,
    ttl: u64,
    now1: u64,
    now2: u64,
)
    ensures
        ({
            let e1 = e.insert(key, CachedItem { data, timestamp: t });
            let e2 = after_access(e1, key, now1, ttl);
            &&& age(t, now1) < ttl ==> fresh_payload(e1, key, now1, ttl) == Some(data) && e2 == e1
            &&& age(t, now1) < ttl && age(t, now2) < ttl ==> fresh_payload(e2, key, now2, ttl) == Some(data)
            &&& age(t, now2) >= ttl ==> fresh_payload(e2, key, now2, ttl) is None
        }),
{
    let e1 = e.insert(key, CachedItem { data, timestamp: t });
    assert(e1.contains_key(key) && e1[key] == CachedItem { data, timestamp: t });
}

/// The path between `a` and `b` and the path between `b` and `a` are kept under one key.
pub proof fn lemma_path_key_symmetric(a: Seq<char>, b: Seq<char>)
    ensures
        path_key(a, b) == path_key(b, a),
{
    lemma_lex_total_antisym(a, b);
}

} // verus!
