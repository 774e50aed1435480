use vstd::prelude::*;

verus! {

/// What `str::to_lowercase` gives for a text.
pub uninterp spec fn lower_of(s: Seq<char>) -> Seq<char>;

/// Relies on `str::to_lowercase`: the lower-case form of a text depends on
/// its characters alone, and the empty text stays empty.
#[verifier::external_body]
fn lowercase(s: &str) -> (r: String)
    ensures
        r@ == lower_of(s@),
        s@.len() == 0 ==> r@.len() == 0,
{
    s.to_lowercase()
}

/// The base URL of the exchange service.
pub open spec fn exchange_api() -> Seq<char> {
    "https://shapeshift.io/"@
}

/// The path that asks whether `address` is valid for the coin `coin`.
pub open spec fn validate_address_path(address: Seq<char>, coin: Seq<char>) -> Seq<char> {
    exchange_api() + "validateAddress/"@ + address + "/"@ + coin
}

/// The path that asks for the exchange limit of a coin pair.
pub open spec fn limit_path(from_coin: Seq<char>, to_coin: Seq<char>) -> Seq<char> {
    exchange_api() + "limit/"@ + from_coin + "_"@ + to_coin
}

/// The path that asks for the market information of a coin pair.
pub open spec fn market_info_path(from_coin: Seq<char>, to_coin: Seq<char>) -> Seq<char> {
    exchange_api() + "marketinfo/"@ + from_coin + "_"@ + to_coin
}

/// The URL of an address-validation query, for a coin symbol given as it
/// is to be sent.
pub fn validate_address_url(address: &str, coin: &str) -> (r: String)
    ensures
        r@ == validate_address_path(address@, coin@),
{
    let mut s = String::from_str("https://shapeshift.io/");
    s.append("validateAddress/");
    s.append(address);
    s.append("/");
    s.append(coin);
    s
}

/// The URL of a limit query, for coin symbols given as they are to be sent.
pub fn limit_url(from_coin: &str, to_coin: &str) -> (r: String)
    ensures
        r@ == limit_path(from_coin@, to_coin@),
{
    let mut s = String::from_str("https://shapeshift.io/");
    s.append("limit/");
    s.append(from_coin);
    s.append("_");
    s.append(to_coin);
    s
}

/// The URL of a market-information query, for coin symbols given as they
/// are to be sent.
pub fn market_info_url(from_coin: &str, to_coin: &str) -> (r: String)
    ensures
        r@ == market_info_path(from_coin@, to_coin@),
{
    let mut s = String::from_str("https://shapeshift.io/");
    s.append("marketinfo/");
    s.append(from_coin);
    s.append("_");
    s.append(to_coin);
    s
}

/// A client of the exchange service for one pair of coins.
pub struct CoinExchange {
    pub from_coin: String,
    pub to_coin: String,
}

impl CoinExchange {
    pub fn new(from_coin: &str, to_coin: &str) -> (r: Self)
        ensures
            r.from_coin@ == from_coin@,
            r.to_coin@ == to_coin@,
    {
        CoinExchange { from_coin: String::from_str(from_coin), to_coin: String::from_str(to_coin) }
    }

    /// The URL that asks whether `address` is valid for the target coin,
    /// whose symbol is sent in lower case.
    pub fn validate_address_request(&self, address: &str) -> (r: String)
        ensures
            r@ == validate_address_path(address@, lower_of(self.to_coin@)),
    {
        let to = lowercase(self.to_coin.as_str());
        validate_address_url(address, to.as_str())
    }

    /// The URL that asks for the exchange limit; both symbols are sent in
    /// lower case.
    pub fn limit_request(&self) -> (r: String)
        ensures
            r@ == limit_path(lower_of(self.from_coin@), lower_of(self.to_coin@)),
    {
        let from = lowercase(self.from_coin.as_str());
        let to = lowercase(self.to_coin.as_str());
        limit_url(from.as_str(), to.as_str())
    }

    /// The URL that asks for the market information; both symbols are sent
    /// as they were given, in their original case.
    pub fn market_info_request(&self) -> (r: String)
        ensures
            r@ == market_info_path(self.from_coin@, self.to_coin@),
    {
        market_info_url(self.from_coin.as_str(), self.to_coin.as_str())
    }
}

} // verus!
