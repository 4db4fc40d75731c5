//! RPC endpoints of the public networks.
use vstd::prelude::*;

verus! {

/// The public mainnet full node.
pub const MAINNET_RPC_URL: &'static str = "https://fullnode.mainnet.sui.io:443";

/// The public testnet full node.
pub const TESTNET_RPC_URL: &'static str = "https://fullnode.testnet.sui.io:443";

/// The endpoint for a named network: mainnet and testnet have their public
/// nodes; anything else gets the configured URL, or mainnet without one.
pub open spec fn rpc_url_for(network: Option<Seq<char>>, configured: Option<Seq<char>>) -> Seq<char> {
    if network == Some("mainnet"@) {
        MAINNET_RPC_URL@
    } else if network == Some("testnet"@) {
        TESTNET_RPC_URL@
    } else {
        match configured {
            Some(u) => u,
            None => MAINNET_RPC_URL@,
        }
    }
}

/// The RPC URL for `network`, where `configured` is the URL that the
/// environment sets, if any.
pub fn get_rpc_url(network: Option<&str>, configured: Option<String>) -> (r: String)
    ensures
        r@ == rpc_url_for(
            match network {
                Some(n) => Some(n@),
                None => None,
            },
            match configured {
                Some(u) => Some(u@),
                None => None,
            },
        ),
{
    if let Some(n) = network {
        let name = String::from_str(n);
        if name == String::from_str("mainnet") {
            return String::from_str(MAINNET_RPC_URL);
        }
        if name == String::from_str("testnet") {
            return String::from_str(TESTNET_RPC_URL);
        }
    }
    match configured {
        Some(u) => u,
        None => String::from_str(MAINNET_RPC_URL),
    }
}

} // verus!
