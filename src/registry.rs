//! The registry records that the cache holds and the menus display.

use vstd::prelude::*;

verus! {

/// A network address of a chain service, with the label of whoever runs it.
#[derive(Clone, Debug, PartialEq, Eq)]
pub struct Endpoint {
    pub address: String,
    pub provider: Option<String>,
}

/// A peer-to-peer node of a chain.
#[derive(Clone, Debug, PartialEq, Eq)]
pub struct Peer {
    pub id: String,
    pub address: String,
    pub provider: Option<String>,
}

/// A block explorer of a chain.
#[derive(Clone, Debug, PartialEq, Eq)]
pub struct Explorer {
    pub kind: String,
    pub url: String,
}

/// What the registry says of one chain.
#[derive(Clone, Debug, PartialEq, Eq)]
pub struct ChainRecord {
    pub chain_name: String,
    pub chain_id: String,
    pub pretty_name: String,
    pub bech32_prefix: String,
    pub slip44: u32,
    pub staking_denoms: Vec<String>,
    pub rpc: Vec<Endpoint>,
    pub rest: Vec<Endpoint>,
    pub grpc: Vec<Endpoint>,
    pub seeds: Vec<Peer>,
    pub persistent_peers: Vec<Peer>,
    pub explorers: Vec<Explorer>,
}

/// One unit in which an asset is counted, `exponent` decimal places below the base.
#[derive(Clone, Debug, PartialEq, Eq)]
pub struct DenomUnit {
    pub denom: String,
    pub exponent: u16,
}

/// One asset of a chain.
#[derive(Clone, Debug, PartialEq, Eq)]
pub struct AssetRecord {
    pub base: String,
    pub symbol: String,
    /// The coin's id at the price service; empty where it has none.
    pub coingecko_id: String,
    pub denom_units: Vec<DenomUnit>,
}

/// The assets of one chain.
#[derive(Clone, Debug, PartialEq, Eq)]
pub struct AssetListRecord {
    pub chain_name: String,
    pub assets: Vec<AssetRecord>,
}

/// One channel of an IBC path: the channel id on either side.
#[derive(Clone, Debug, PartialEq, Eq)]
pub struct ChannelRecord {
    pub channel_1: String,
    pub channel_2: String,
}

/// The IBC connection between two chains.
#[derive(Clone, Debug, PartialEq, Eq)]
pub struct PathRecord {
    pub chain_1: String,
    pub chain_2: String,
    pub channels: Vec<ChannelRecord>,
}

/// A cached payload, of one of the four kinds the cache keeps.
#[derive(Clone, Debug, PartialEq, Eq)]
pub enum Resource {
    Chain(ChainRecord),
    Assets(AssetListRecord),
    Names(Vec<String>),
    Path(PathRecord),
}

} // verus!
