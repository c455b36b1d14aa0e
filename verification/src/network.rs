use vstd::prelude::*;

verus! {

/// The Bitcoin network a wallet operates on. Key-derivation paths and address
/// encoding are selected by the network family: mainnet on one side, the
/// test-family networks (testnet, regtest, signet) on the other.
#[derive(Clone, Copy, PartialEq, Eq, Structural, Debug)]
pub enum Network {
    Bitcoin,
    Testnet,
    Regtest,
    Signet,
}

impl Network {
    /// True for the test-family networks, which share the test derivation paths.
    pub open spec fn spec_is_testnet_like(self) -> bool {
        match self {
            Network::Bitcoin => false,
            Network::Testnet => true,
            Network::Regtest => true,
            Network::Signet => true,
        }
    }

    /// Runtime test for the test-family networks.
    pub fn is_testnet_like(&self) -> (r: bool)
        ensures
            r == self.spec_is_testnet_like(),
    {
        match self {
            Network::Bitcoin => false,
            Network::Testnet => true,
            Network::Regtest => true,
            Network::Signet => true,
        }
    }

    /// A stable numeric tag for the network, used where a specification needs
    /// the network as a plain value.
    pub open spec fn spec_id(self) -> int {
        match self {
            Network::Bitcoin => 0,
            Network::Testnet => 1,
            Network::Regtest => 2,
            Network::Signet => 3,
        }
    }
}

} // verus!
