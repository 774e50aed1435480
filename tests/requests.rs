use coinmarket::error::ClientError;
use coinmarket::ethereum::{Web3, Web3Provider};
use coinmarket::exchange::{limit_url, market_info_url, validate_address_url, CoinExchange};
use coinmarket::query::{api_key_param, to_decimal};
use coinmarket::web3::Web3 as HostWeb3;

const ADDR: &str = "0x9De8991C56F622175274fb358f981AF6F903a799";

#[test]
fn network_urls_are_fixed_and_distinct() {
    let w = Web3::new(Web3Provider::MainNet);
    let all = [
        (Web3Provider::MainNet, "https://api.etherscan.io/api?module="),
        (Web3Provider::Ropsten, "https://api-ropsten.etherscan.io/api?module="),
        (Web3Provider::Kovan, "https://api-kovan.etherscan.io/api?module="),
        (Web3Provider::Rinkeby, "https://api-rinkeby.etherscan.io/api?module="),
    ];
    for (p, url) in all.iter() {
        assert_eq!(w.get_network(*p), *url);
        assert_eq!(w.get_network(*p), w.get_network(*p));
    }
    for i in 0..all.len() {
        for k in 0..all.len() {
            if i != k {
                assert_ne!(w.get_network(all[i].0), w.get_network(all[k].0));
            }
        }
    }
}

#[test]
fn host_provider_url() {
    let w = HostWeb3::new(String::from("api.example.org"));
    assert_eq!(w.provider, "https://api.example.org/api?module=");
}

#[test]
fn balance_request_follows_template() {
    let w = Web3::new(Web3Provider::MainNet);
    let url = w.balance_request(ADDR, Some("KEY")).unwrap();
    assert_eq!(
        url,
        format!(
            "https://api.etherscan.io/api?module=account&action=balance&address={}&tag=latest&apikey=KEY",
            ADDR
        )
    );
}

#[test]
fn supply_and_price_requests_follow_template() {
    let w = Web3::new(Web3Provider::Kovan);
    assert_eq!(
        w.total_supply_request(Some("K")).unwrap(),
        "https://api-kovan.etherscan.io/api?module=stats&action=ethsupply&apikey=K"
    );
    assert_eq!(
        w.last_price_request(Some("K")).unwrap(),
        "https://api-kovan.etherscan.io/api?module=stats&action=ethprice&apikey=K"
    );
}

#[test]
fn transactions_request_follows_template() {
    let w = Web3::new(Web3Provider::Ropsten);
    let url = w.transactions_request("0xabc", 0, 99999999, Some("K")).unwrap();
    assert_eq!(
        url,
        "https://api-ropsten.etherscan.io/api?module=account&action=txlist&address=0xabc&startblock=0&endblock=99999999&sort=asc&apikey=K"
    );
}

#[test]
fn transactions_request_passes_bounds_through() {
    let w = HostWeb3::new(String::from("h.io"));
    let url = w.transactions_request("a b&c", 10, -3, Some("K")).unwrap();
    assert_eq!(
        url,
        "https://h.io/api?module=account&action=txlist&address=a b&c&startblock=10&endblock=-3&sort=asc&apikey=K"
    );
    let url = w.transactions_request("x", i64::MIN, i64::MAX, Some("K")).unwrap();
    assert_eq!(
        url,
        "https://h.io/api?module=account&action=txlist&address=x&startblock=-9223372036854775808&endblock=9223372036854775807&sort=asc&apikey=K"
    );
}

#[test]
fn host_client_requests_follow_template() {
    let w = HostWeb3::new(String::from("api.example.org"));
    assert_eq!(
        w.balance_request("0x1", Some("K")).unwrap(),
        "https://api.example.org/api?module=account&action=balance&address=0x1&tag=latest&apikey=K"
    );
    assert_eq!(
        w.total_supply_request(Some("K")).unwrap(),
        "https://api.example.org/api?module=stats&action=ethsupply&apikey=K"
    );
    assert_eq!(
        w.last_price_request(Some("K")).unwrap(),
        "https://api.example.org/api?module=stats&action=ethprice&apikey=K"
    );
}

#[test]
fn decimal_text() {
    assert_eq!(to_decimal(0), "0");
    assert_eq!(to_decimal(7), "7");
    assert_eq!(to_decimal(-1), "-1");
    assert_eq!(to_decimal(1234567890), "1234567890");
    assert_eq!(to_decimal(i64::MIN), "-9223372036854775808");
}

fn is_config(r: &Result<String, ClientError>) -> bool {
    matches!(r, Err(ClientError::Config(_)))
}

#[test]
fn missing_api_key_is_config_error() {
    assert!(matches!(api_key_param(None), Err(ClientError::Config(_))));
    assert_eq!(api_key_param(Some("abc")).unwrap(), "&apikey=abc");
    let w = Web3::new(Web3Provider::MainNet);
    assert!(is_config(&w.balance_request(ADDR, None)));
    assert!(is_config(&w.total_supply_request(None)));
    assert!(is_config(&w.last_price_request(None)));
    assert!(is_config(&w.transactions_request(ADDR, 1, 2, None)));
    let h = HostWeb3::new(String::from("h.io"));
    assert!(is_config(&h.balance_request(ADDR, None)));
    assert!(is_config(&h.total_supply_request(None)));
    assert!(is_config(&h.last_price_request(None)));
    assert!(is_config(&h.transactions_request(ADDR, 1, 2, None)));
}

#[test]
fn exchange_case_asymmetry() {
    let ex = CoinExchange::new("BTC", "ETH");
    let limit = ex.limit_request();
    let market = ex.market_info_request();
    assert!(limit.contains("btc_eth"));
    assert!(market.contains("BTC_ETH"));
    assert_eq!(limit, "https://shapeshift.io/limit/btc_eth");
    assert_eq!(market, "https://shapeshift.io/marketinfo/BTC_ETH");
    assert_eq!(
        ex.validate_address_request("1BoatSLRHtKNngkdXEeobR76b53LETtpyT"),
        "https://shapeshift.io/validateAddress/1BoatSLRHtKNngkdXEeobR76b53LETtpyT/eth"
    );
}

#[test]
fn exchange_urls_keep_symbols_as_given() {
    assert_eq!(limit_url("Ab", "cD"), "https://shapeshift.io/limit/Ab_cD");
    assert_eq!(market_info_url("x", "y"), "https://shapeshift.io/marketinfo/x_y");
    assert_eq!(validate_address_url("a", "Z"), "https://shapeshift.io/validateAddress/a/Z");
}
