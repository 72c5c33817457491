//! Anchoring record hashes on a blockchain: which networks are known, what
//! is written into a transaction, and how it is read back. Sending
//! transactions is the caller's part.

use crate::text::str_eq;
use vstd::prelude::*;
use vstd::string::StrSliceExecFns;
use vstd::string::StringExecFns;

verus! {

/// A network that hashes can be anchored on.
#[derive(Debug, Clone, Copy, PartialEq, Eq, Structural)]
pub enum Network {
    Ethereum,
    Sepolia,
    Polygon,
    PolygonAmoy,
}

/// The marker `DNS:` that precedes an anchored hash, in base sixteen.
pub open spec fn spec_marker_hex() -> Seq<char> {
    "444e533a"@
}

/// The network that a name stands for.
pub open spec fn spec_network(name: Seq<char>) -> Option<Network> {
    if name == "ethereum"@ {
        Some(Network::Ethereum)
    } else if name == "sepolia"@ {
        Some(Network::Sepolia)
    } else if name == "polygon"@ {
        Some(Network::Polygon)
    } else if name == "polygon-amoy"@ {
        Some(Network::PolygonAmoy)
    } else {
        None
    }
}

/// Recognises a network by its name. Any other name is unsupported.
pub fn network_from_name(name: &str) -> (network: Option<Network>)
    ensures
        network == spec_network(name@),
{
    if str_eq(name, "ethereum") {
        Some(Network::Ethereum)
    } else if str_eq(name, "sepolia") {
        Some(Network::Sepolia)
    } else if str_eq(name, "polygon") {
        Some(Network::Polygon)
    } else if str_eq(name, "polygon-amoy") {
        Some(Network::PolygonAmoy)
    } else {
        None
    }
}

impl Network {
    /// The environment variable that names the network's RPC endpoint.
    pub fn rpc_url_variable(&self) -> (name: &'static str)
        ensures
            name@ == match *self {
                Network::Ethereum => "ETHEREUM_RPC_URL"@,
                Network::Sepolia => "SEPOLIA_RPC_URL"@,
                Network::Polygon => "POLYGON_RPC_URL"@,
                Network::PolygonAmoy => "POLYGON_AMOY_RPC_URL"@,
            },
    {
        match self {
            Network::Ethereum => "ETHEREUM_RPC_URL",
            Network::Sepolia => "SEPOLIA_RPC_URL",
            Network::Polygon => "POLYGON_RPC_URL",
            Network::PolygonAmoy => "POLYGON_AMOY_RPC_URL",
        }
    }

    /// The RPC endpoint used where the environment names none.
    pub fn default_rpc_url(&self) -> (url: &'static str)
        ensures
            url@ == match *self {
                Network::Ethereum => "https://eth.llamarpc.com"@,
                Network::Sepolia => "https://rpc.sepolia.org"@,
                Network::Polygon => "https://polygon-rpc.com"@,
                Network::PolygonAmoy => "https://rpc-amoy.polygon.technology"@,
            },
    {
        match self {
            Network::Ethereum => "https://eth.llamarpc.com",
            Network::Sepolia => "https://rpc.sepolia.org",
            Network::Polygon => "https://polygon-rpc.com",
            Network::PolygonAmoy => "https://rpc-amoy.polygon.technology",
        }
    }
}

/// The data field of the transaction that anchors `hash`, in base sixteen:
/// `0x`, the marker, then the hash as it stands.
pub fn anchor_data(hash: &str) -> (data: String)
    ensures
        data@ == "0x"@ + spec_marker_hex() + hash@,
{
    let mut data: String = String::new();
    data.append("0x");
    data.append("444e533a");
    data.append(hash);
    assert(data@ =~= "0x"@ + spec_marker_hex() + hash@);
    data
}

/// Whether the data of a transaction, in base sixteen without `0x`, holds
/// `expected` after the eight digits of the marker. Data that ends with the
/// marker holds nothing.
pub fn stored_hash_matches(data_hex: &str, expected: &str) -> (matches: bool)
    ensures
        matches == (data_hex@.len() > 8 && data_hex@.skip(8) == expected@),
{
    let len: usize = data_hex.unicode_len();
    if len <= 8 {
        return false;
    }
    let stored: &str = data_hex.substring_char(8, len);
    assert(stored@ =~= data_hex@.skip(8));
    str_eq(stored, expected)
}

} // verus!
