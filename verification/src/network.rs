//! The networks a program can be built for, tested against and deployed to.

use crate::text::same_text;
use vstd::prelude::*;

verus! {

/// A network.
#[derive(Clone, Copy, Debug, PartialEq, Eq, Structural)]
pub enum Network {
    Localnet,
    Devnet,
    Mainnet,
}

/// The network that a name stands for, where it stands for one.
pub open spec fn named_network(name: Seq<char>) -> Option<Network> {
    if name == "localnet"@ || name == "localhost"@ {
        Some(Network::Localnet)
    } else if name == "devnet"@ {
        Some(Network::Devnet)
    } else if name == "mainnet"@ || name == "mainnet-beta"@ {
        Some(Network::Mainnet)
    } else {
        None
    }
}

/// The network to use for a name: devnet where the name stands for none.
pub open spec fn network_or_devnet(name: Seq<char>) -> Network {
    match named_network(name) {
        Some(n) => n,
        None => Network::Devnet,
    }
}

/// The address of the RPC endpoint of a network.
pub open spec fn url_of(n: Network) -> Seq<char> {
    match n {
        Network::Localnet => "http://127.0.0.1:8899"@,
        Network::Devnet => "https://api.devnet.solana.com"@,
        Network::Mainnet => "https://api.mainnet-beta.solana.com"@,
    }
}

/// The name under which a network is known to the tools.
pub open spec fn name_of(n: Network) -> Seq<char> {
    match n {
        Network::Localnet => "localnet"@,
        Network::Devnet => "devnet"@,
        Network::Mainnet => "mainnet-beta"@,
    }
}

/// Finds the network that `network` stands for. `None` tells the caller
/// that the name is unknown and devnet will be used.
pub fn known_network(network: &str) -> (r: Option<Network>)
    ensures
        r == named_network(network@),
{
    if same_text(network, "localnet") || same_text(network, "localhost") {
        Some(Network::Localnet)
    } else if same_text(network, "devnet") {
        Some(Network::Devnet)
    } else if same_text(network, "mainnet") || same_text(network, "mainnet-beta") {
        Some(Network::Mainnet)
    } else {
        None
    }
}

/// The address of the RPC endpoint to use for `network`.
pub fn get_network_url(network: &str) -> (r: &'static str)
    ensures
        r@ == url_of(network_or_devnet(network@)),
{
    match known_network(network) {
        Some(Network::Localnet) => "http://127.0.0.1:8899",
        Some(Network::Mainnet) => "https://api.mainnet-beta.solana.com",
        Some(Network::Devnet) | None => "https://api.devnet.solana.com",
    }
}

/// The name of the network to use for `network`.
pub fn get_network_name(network: &str) -> (r: &'static str)
    ensures
        r@ == name_of(network_or_devnet(network@)),
{
    match known_network(network) {
        Some(Network::Localnet) => "localnet",
        Some(Network::Mainnet) => "mainnet-beta",
        Some(Network::Devnet) | None => "devnet",
    }
}

} // verus!
