//! The networks that a key can belong to.
use vstd::prelude::*;

verus! {

/// A network.
#[derive(Copy, Clone, Debug, PartialEq, Eq, Structural)]
pub enum Network {
    /// The production network.
    Mainnet,
    /// The test network.
    Testnet,
}

impl Default for Network {
    fn default() -> (network: Network)
        ensures
            network == Network::Mainnet,
    {
        Network::Mainnet
    }
}

impl Network {
    /// The name of the network.
    pub open spec fn name(self) -> Seq<char> {
        match self {
            Network::Mainnet => "Mainnet"@,
            Network::Testnet => "Testnet"@,
        }
    }

    /// The name of the network.
    pub fn as_str(&self) -> (name: &'static str)
        ensures
            name@ == self.name(),
            *self == Network::Mainnet ==> name@ == "Mainnet"@,
            *self == Network::Testnet ==> name@ == "Testnet"@,
    {
        match self {
            Network::Mainnet => "Mainnet",
            Network::Testnet => "Testnet",
        }
    }
}

} // verus!
