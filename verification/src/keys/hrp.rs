//! The human-readable parts that tell in a text what kind of key it holds and
//! which network the key is for.
use vstd::prelude::*;

use crate::network::Network;
use crate::text::is_hrp;

verus! {

/// Spending keys for the production network.
pub const SK_MAINNET: &'static str = "secret-orchard-sk-main";

/// Spending keys for the test network.
pub const SK_TESTNET: &'static str = "secret-orchard-sk-test";

/// Incoming viewing keys for the production network.
pub const IVK_MAINNET: &'static str = "zivko";

/// Incoming viewing keys for the test network.
pub const IVK_TESTNET: &'static str = "zivktestorchard";

/// Full viewing keys for the production network.
pub const FVK_MAINNET: &'static str = "zviewo";

/// Full viewing keys for the test network.
pub const FVK_TESTNET: &'static str = "zviewtestorchard";

/// The network that a human-readable part stands for: the production network if
/// it is the one for it, and the test network if it is any other.
pub open spec fn network_of(hrp: Seq<char>, mainnet: Seq<char>) -> Network {
    if hrp == mainnet {
        Network::Mainnet
    } else {
        Network::Testnet
    }
}

/// The network that a human-readable part stands for.
pub fn read_network(hrp: &String, mainnet: &str) -> (network: Network)
    ensures
        network == network_of(hrp@, mainnet@),
        network == Network::Mainnet <==> hrp@ == mainnet@,
{
    if *hrp == mainnet.to_owned() {
        Network::Mainnet
    } else {
        Network::Testnet
    }
}

/// All of them can stand in a text, and the two of a kind differ.
pub proof fn lemma_hrps()
    ensures
        is_hrp(SK_MAINNET@),
        is_hrp(SK_TESTNET@),
        SK_MAINNET@ != SK_TESTNET@,
        is_hrp(IVK_MAINNET@),
        is_hrp(IVK_TESTNET@),
        IVK_MAINNET@ != IVK_TESTNET@,
        is_hrp(FVK_MAINNET@),
        is_hrp(FVK_TESTNET@),
        FVK_MAINNET@ != FVK_TESTNET@,
{
    reveal_strlit("secret-orchard-sk-main");
    reveal_strlit("secret-orchard-sk-test");
    reveal_strlit("zivko");
    reveal_strlit("zivktestorchard");
    reveal_strlit("zviewo");
    reveal_strlit("zviewtestorchard");
    assert(SK_MAINNET@[18] != SK_TESTNET@[18]);
}

} // verus!
