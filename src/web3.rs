use crate::error::ClientError;
use crate::query::{
    balance_query, balance_url, last_price_url, price_query, supply_query, total_supply_url,
    transactions_query, transactions_url,
};
use vstd::prelude::*;

verus! {

/// The base URL of an explorer service at `host`, ending in the query's
/// module marker.
pub open spec fn host_url(host: Seq<char>) -> Seq<char> {
    "https://"@ + host + "/api?module="@
}

/// An explorer client for a service at any host.
pub struct Web3 {
    /// The base URL, with the scheme and the module marker.
    pub provider: String,
}

impl Web3 {
    /// A client for the service at `provider`, a host name without scheme.
    pub fn new(provider: String) -> (r: Self)
        ensures
            r.provider@ == host_url(provider@),
    {
        let mut base = String::from_str("https://");
        base.append(provider.as_str());
        base.append("/api?module=");
        Web3 { provider: base }
    }

    /// The URL that asks for the balance of `address`, in wei.
    pub fn balance_request(&self, address: &str, api_key: Option<&str>) -> (r: Result<
        String,
        ClientError,
    >)
        ensures
            match api_key {
                None => r matches Err(ClientError::Config(_)),
                Some(k) => r matches Ok(s) && s@ == balance_query(self.provider@, address@, k@),
            },
    {
        balance_url(self.provider.as_str(), address, api_key)
    }

    /// The URL that asks for the total supply.
    pub fn total_supply_request(&self, api_key: Option<&str>) -> (r: Result<String, ClientError>)
        ensures
            match api_key {
                None => r matches Err(ClientError::Config(_)),
                Some(k) => r matches Ok(s) && s@ == supply_query(self.provider@, k@),
            },
    {
        total_supply_url(self.provider.as_str(), api_key)
    }

    /// The URL that asks for the last price.
    pub fn last_price_request(&self, api_key: Option<&str>) -> (r: Result<String, ClientError>)
        ensures
            match api_key {
                None => r matches Err(ClientError::Config(_)),
                Some(k) => r matches Ok(s) && s@ == price_query(self.provider@, k@),
            },
    {
        last_price_url(self.provider.as_str(), api_key)
    }

    /// The URL that asks for the transactions of `address` between two block
    /// heights, in ascending order.
    pub fn transactions_request(
        &self,
        address: &str,
        start_block: i64,
        end_block: i64,
        api_key: Option<&str>,
    ) -> (r: Result<String, ClientError>)
        ensures
            match api_key {
                None => r matches Err(ClientError::Config(_)),
                Some(k) => r matches Ok(s) && s@ == transactions_query(
                    self.provider@,
                    address@,
                    start_block as int,
                    end_block as int,
                    k@,
                ),
            },
    {
        transactions_url(self.provider.as_str(), address, start_block, end_block, api_key)
    }
}

} // verus!
