use crate::error::ClientError;
use crate::query::{
    balance_query, balance_url, last_price_url, price_query, supply_query, total_supply_url,
    transactions_query, transactions_url,
};
use vstd::prelude::*;

verus! {

/// The named networks of the explorer service.
#[derive(Copy, Clone, Debug, PartialEq, Eq, Structural)]
pub enum Web3Provider {
    MainNet,
    Ropsten,
    Rinkeby,
    Kovan,
}

/// The base URL of a named network, ending in the query's module marker.
pub open spec fn network_url(network: Web3Provider) -> Seq<char> {
    match network {
        Web3Provider::MainNet => "https://api.etherscan.io/api?module="@,
        Web3Provider::Ropsten => "https://api-ropsten.etherscan.io/api?module="@,
        Web3Provider::Kovan => "https://api-kovan.etherscan.io/api?module="@,
        Web3Provider::Rinkeby => "https://api-rinkeby.etherscan.io/api?module="@,
    }
}

/// Each named network has a base URL of its own: two networks give the same
/// URL only when they are the same network.
pub proof fn lemma_network_urls_distinct(a: Web3Provider, b: Web3Provider)
    ensures
        network_url(a) == network_url(b) <==> a == b,
{
    reveal_strlit("https://api.etherscan.io/api?module=");
    reveal_strlit("https://api-ropsten.etherscan.io/api?module=");
    reveal_strlit("https://api-kovan.etherscan.io/api?module=");
    reveal_strlit("https://api-rinkeby.etherscan.io/api?module=");
    if network_url(a) == network_url(b) {
        assert(network_url(a)[11] == network_url(b)[11]);
        assert(network_url(a)[12] == network_url(b)[12]);
        assert(network_url(a)[13] == network_url(b)[13]);
    }
}

/// An explorer client for one of the named networks.
pub struct Web3 {
    pub provider: Web3Provider,
}

impl Web3 {
    pub fn new(provider: Web3Provider) -> (r: Self)
        ensures
            r.provider == provider,
    {
        Web3 { provider }
    }

    /// The base URL of `network`; the same network always gives the same URL.
    pub fn get_network(&self, network: Web3Provider) -> (r: String)
        ensures
            r@ == network_url(network),
    {
        match network {
            Web3Provider::MainNet => String::from_str("https://api.etherscan.io/api?module="),
            Web3Provider::Ropsten => String::from_str(
                "https://api-ropsten.etherscan.io/api?module=",
            ),
            Web3Provider::Kovan => String::from_str("https://api-kovan.etherscan.io/api?module="),
            Web3Provider::Rinkeby => String::from_str(
                "https://api-rinkeby.etherscan.io/api?module=",
            ),
        }
    }

    /// The URL that asks for the balance of `address`, in wei.
    pub fn balance_request(&self, address: &str, api_key: Option<&str>) -> (r: Result<
        String,
        ClientError,
    >)
        ensures
            match api_key {
                None => r matches Err(ClientError::Config(_)),
                Some(k) => r matches Ok(s) && s@ == balance_query(
                    network_url(self.provider),
                    address@,
                    k@,
                ),
            },
    {
        let base = self.get_network(self.provider);
        balance_url(base.as_str(), address, api_key)
    }

    /// The URL that asks for the total supply.
    pub fn total_supply_request(&self, api_key: Option<&str>) -> (r: Result<String, ClientError>)
        ensures
            match api_key {
                None => r matches Err(ClientError::Config(_)),
                Some(k) => r matches Ok(s) && s@ == supply_query(network_url(self.provider), k@),
            },
    {
        let base = self.get_network(self.provider);
        total_supply_url(base.as_str(), api_key)
    }

    /// The URL that asks for the last price.
    pub fn last_price_request(&self, api_key: Option<&str>) -> (r: Result<String, ClientError>)
        ensures
            match api_key {
                None => r matches Err(ClientError::Config(_)),
                Some(k) => r matches Ok(s) && s@ == price_query(network_url(self.provider), k@),
            },
    {
        let base = self.get_network(self.provider);
        last_price_url(base.as_str(), api_key)
    }

    /// The URL that asks for the transactions of `address` between two block
    /// heights, in ascending order.
    pub fn transactions_request(
        &self,
        address: &str,
        start_block: i64,
        end_block: i64,
        api_key: Option<&str>,
    ) -> (r: Result<String, ClientError>)
        ensures
            match api_key {
                None => r matches Err(ClientError::Config(_)),
                Some(k) => r matches Ok(s) && s@ == transactions_query(
                    network_url(self.provider),
                    address@,
                    start_block as int,
                    end_block as int,
                    k@,
                ),
            },
    {
        let base = self.get_network(self.provider);
        transactions_url(base.as_str(), address, start_block, end_block, api_key)
    }
}

} // verus!
