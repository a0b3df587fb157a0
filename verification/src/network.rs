//! The networks the client knows by name.

use crate::text::same_text;
use vstd::prelude::*;

verus! {

/// A supported network: mainnet and the named test networks.
#[derive(Clone, Copy, Debug, PartialEq, Eq, Structural)]
pub enum Network {
    Mainnet,
    Ropsten,
    Rinkeby,
    Goerli,
    Kovan,
}

/// The network used where none is named.
pub const DEFAULT_NETWORK: Network = Network::Mainnet;

/// The name under which a network is chosen.
pub open spec fn name_text(network: Network) -> Seq<char> {
    match network {
        Network::Mainnet => "mainnet"@,
        Network::Ropsten => "ropsten"@,
        Network::Rinkeby => "rinkeby"@,
        Network::Goerli => "goerli"@,
        Network::Kovan => "kovan"@,
    }
}

/// The network that `name` names, if it names one.
pub open spec fn network_named(name: Seq<char>) -> Option<Network> {
    if name == "mainnet"@ {
        Some(Network::Mainnet)
    } else if name == "ropsten"@ {
        Some(Network::Ropsten)
    } else if name == "rinkeby"@ {
        Some(Network::Rinkeby)
    } else if name == "goerli"@ {
        Some(Network::Goerli)
    } else if name == "kovan"@ {
        Some(Network::Kovan)
    } else {
        None
    }
}

/// The first label of the host that serves a network.
pub open spec fn host_text(network: Network) -> Seq<char> {
    match network {
        Network::Mainnet => "eth-mainnet"@,
        Network::Ropsten => "eth-ropsten"@,
        Network::Rinkeby => "eth-rinkeby"@,
        Network::Goerli => "eth-goerli"@,
        Network::Kovan => "eth-kovan"@,
    }
}

/// The chain id of a network.
pub open spec fn chain_id_of(network: Network) -> u64 {
    match network {
        Network::Mainnet => 1,
        Network::Ropsten => 3,
        Network::Rinkeby => 4,
        Network::Goerli => 5,
        Network::Kovan => 42,
    }
}

/// Every network is found again under its own name.
pub proof fn lemma_name_round_trip(network: Network)
    ensures
        network_named(name_text(network)) == Some(network),
{
    reveal_strlit("mainnet");
    reveal_strlit("ropsten");
    reveal_strlit("rinkeby");
    reveal_strlit("goerli");
    reveal_strlit("kovan");
    assert("mainnet"@.len() == 7 && "ropsten"@.len() == 7 && "rinkeby"@.len() == 7);
    assert("goerli"@.len() == 6 && "kovan"@.len() == 5);
    assert("mainnet"@[0] == 'm' && "ropsten"@[0] == 'r' && "rinkeby"@[0] == 'r');
    assert("ropsten"@[1] == 'o' && "rinkeby"@[1] == 'i');
}

impl Network {
    /// The name under which the network is chosen.
    pub fn name(&self) -> (r: &'static str)
        ensures
            r@ == name_text(*self),
    {
        match self {
            Network::Mainnet => "mainnet",
            Network::Ropsten => "ropsten",
            Network::Rinkeby => "rinkeby",
            Network::Goerli => "goerli",
            Network::Kovan => "kovan",
        }
    }

    /// The first label of the host that serves the network.
    pub fn host(&self) -> (r: &'static str)
        ensures
            r@ == host_text(*self),
    {
        match self {
            Network::Mainnet => "eth-mainnet",
            Network::Ropsten => "eth-ropsten",
            Network::Rinkeby => "eth-rinkeby",
            Network::Goerli => "eth-goerli",
            Network::Kovan => "eth-kovan",
        }
    }

    /// The chain id of the network.
    pub fn chain_id(&self) -> (r: u64)
        ensures
            r == chain_id_of(*self),
    {
        match self {
            Network::Mainnet => 1,
            Network::Ropsten => 3,
            Network::Rinkeby => 4,
            Network::Goerli => 5,
            Network::Kovan => 42,
        }
    }

    /// The network that `name` names, if it names one.
    pub fn from_name(name: &str) -> (r: Option<Network>)
        ensures
            r == network_named(name@),
    {
        if same_text(name, "mainnet") {
            Some(Network::Mainnet)
        } else if same_text(name, "ropsten") {
            Some(Network::Ropsten)
        } else if same_text(name, "rinkeby") {
            Some(Network::Rinkeby)
        } else if same_text(name, "goerli") {
            Some(Network::Goerli)
        } else if same_text(name, "kovan") {
            Some(Network::Kovan)
        } else {
            None
        }
    }
}

} // verus!
