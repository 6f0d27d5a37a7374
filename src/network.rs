//! The chains the driver pays on.

use vstd::prelude::*;

verus! {

/// A supported chain: one mainnet, two testnets and the Polygon family.
#[derive(Clone, Copy, Debug, PartialEq, Eq, Structural)]
pub enum Network {
    Mainnet,
    Rinkeby,
    Goerli,
    Polygon,
    Mumbai,
}

impl Network {
    /// The chain id used in transaction signatures.
    pub open spec fn spec_chain_id(self) -> u64 {
        match self {
            Network::Mainnet => 1,
            Network::Rinkeby => 4,
            Network::Goerli => 5,
            Network::Polygon => 137,
            Network::Mumbai => 80001,
        }
    }

    pub fn chain_id(self) -> (r: u64)
        ensures
            r == self.spec_chain_id(),
    {
        match self {
            Network::Mainnet => 1,
            Network::Rinkeby => 4,
            Network::Goerli => 5,
            Network::Polygon => 137,
            Network::Mumbai => 80001,
        }
    }

    /// The environment variable that may override this chain's RPC endpoint.
    pub fn rpc_env_var(self) -> (r: &'static str)
        ensures
            self == Network::Mainnet ==> r@ == "MAINNET_GETH_ADDR"@,
            self == Network::Rinkeby ==> r@ == "RINKEBY_GETH_ADDR"@,
            self == Network::Goerli ==> r@ == "GOERLI_GETH_ADDR"@,
            self == Network::Polygon ==> r@ == "POLYGON_GETH_ADDR"@,
            self == Network::Mumbai ==> r@ == "MUMBAI_GETH_ADDR"@,
    {
        match self {
            Network::Mainnet => "MAINNET_GETH_ADDR",
            Network::Rinkeby => "RINKEBY_GETH_ADDR",
            Network::Goerli => "GOERLI_GETH_ADDR",
            Network::Polygon => "POLYGON_GETH_ADDR",
            Network::Mumbai => "MUMBAI_GETH_ADDR",
        }
    }

    /// The public RPC endpoint used when no override is configured.
    pub fn default_rpc_addr(self) -> (r: &'static str)
        ensures
            self == Network::Mainnet ==> r@ == "https://geth.golem.network:55555"@,
            self == Network::Rinkeby ==> r@ == "http://geth.testnet.golem.network:55555"@,
            self == Network::Goerli ==> r@ == "https://rpc.goerli.mudit.blog"@,
            self == Network::Polygon ==> r@ == "https://bor.golem.network"@,
            self == Network::Mumbai ==> r@ == "https://matic-mumbai.chainstacklabs.com"@,
    {
        match self {
            Network::Mainnet => "https://geth.golem.network:55555",
            Network::Rinkeby => "http://geth.testnet.golem.network:55555",
            Network::Goerli => "https://rpc.goerli.mudit.blog",
            Network::Polygon => "https://bor.golem.network",
            Network::Mumbai => "https://matic-mumbai.chainstacklabs.com",
        }
    }

    /// Resolves the RPC endpoint from the configured override, if any
    /// (the caller reads the variable named by `rpc_env_var`).
    pub fn rpc_addr(self, configured: Option<String>) -> (r: String)
        ensures
            configured is Some ==> r@ == configured->Some_0@,
            configured is None ==> r@ == self.default_rpc_addr_spec(),
    {
        match configured {
            Some(addr) => addr,
            None => {
                let d = self.default_rpc_addr();
                String::from_str(d)
            },
        }
    }

    pub open spec fn default_rpc_addr_spec(self) -> Seq<char> {
        match self {
            Network::Mainnet => "https://geth.golem.network:55555"@,
            Network::Rinkeby => "http://geth.testnet.golem.network:55555"@,
            Network::Goerli => "https://rpc.goerli.mudit.blog"@,
            Network::Polygon => "https://bor.golem.network"@,
            Network::Mumbai => "https://matic-mumbai.chainstacklabs.com"@,
        }
    }
}

} // verus!
