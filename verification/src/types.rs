//! Shared plain types: the supported Cardano networks, the node roles,
//! and the network magic constants that identify a network instance.

use vstd::prelude::*;

verus! {

/// Network magic identifying the Cardano main network.
pub const MAINNET_MAGIC: u32 = 764824073;

/// Network magic identifying the Cardano test network.
pub const TESTNET_MAGIC: u32 = 1097911063;

/// The Cardano network a node belongs to.
#[derive(Clone, Copy, Debug, PartialEq, Eq, Structural)]
pub enum NetworkType {
    /// The Cardano main network.
    Mainnet,
    /// The Cardano test network.
    TestNet,
}

/// The role a node plays in a staking pool.
#[derive(Clone, Copy, Debug, PartialEq, Eq, Structural)]
pub enum NodeType {
    /// A relay node.
    Relay,
    /// A block-producing node.
    Producer,
}

impl Default for NetworkType {
    /// The default network is the main network.
    fn default() -> (r: Self)
        ensures
            r == NetworkType::Mainnet,
    {
        NetworkType::Mainnet
    }
}

impl Default for NodeType {
    /// The default role is relay.
    fn default() -> (r: Self)
        ensures
            r == NodeType::Relay,
    {
        NodeType::Relay
    }
}

/// The network magic that [`network_magic`] assigns to a network.
pub open spec fn spec_network_magic(net: NetworkType) -> u32 {
    match net {
        NetworkType::Mainnet => MAINNET_MAGIC,
        NetworkType::TestNet => TESTNET_MAGIC,
    }
}

/// Returns the network magic constant for `net`.  The magic is passed
/// opaquely to the wire-protocol client and never interpreted here.
pub fn network_magic(net: NetworkType) -> (magic: u32)
    ensures
        magic == spec_network_magic(net),
{
    match net {
        NetworkType::Mainnet => MAINNET_MAGIC,
        NetworkType::TestNet => TESTNET_MAGIC,
    }
}

} // verus!
