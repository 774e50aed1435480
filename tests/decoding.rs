use coinmarket::error::ClientError;
use coinmarket::json::{get_member, text_list, Json};
use coinmarket::models::{
    decode_transactions, EthBalance, EthPrice, EthTransaction, EthTransactionHash, Ethlog,
    Etherscan, ValidateAddress,
};

fn s(t: &str) -> Json {
    Json::Str(String::from(t))
}

fn obj(members: Vec<(&str, Json)>) -> Json {
    Json::Object(members.into_iter().map(|(k, v)| (String::from(k), v)).collect())
}

fn envelope(status: &str, message: &str, result: Json) -> Json {
    obj(vec![("status", s(status)), ("message", s(message)), ("result", result)])
}

const TX_KEYS: [&str; 18] = [
    "blockNumber",
    "timeStamp",
    "hash",
    "nonce",
    "blockHash",
    "transactionIndex",
    "from",
    "to",
    "value",
    "gas",
    "gasPrice",
    "isError",
    "txreceipt_status",
    "input",
    "contractAddress",
    "cumulativeGasUsed",
    "gasUsed",
    "confirmations",
];

const MAX_WEI: &str =
    "115792089237316195423570985008687907853269984665640564039457584007913129639935";

fn tx_json(value: &str) -> Json {
    obj(TX_KEYS
        .iter()
        .map(|k| (*k, if *k == "value" { s(value) } else { s(&format!("<{}>", k)) }))
        .collect())
}

fn is_decode<T>(r: &Result<T, ClientError>) -> bool {
    matches!(r, Err(ClientError::Decode(_)))
}

#[test]
fn envelope_success_status_yields_payload() {
    let j = envelope("1", "OK", s("123456789"));
    let env = Etherscan::<String>::decode_text(&j).unwrap();
    assert_eq!(env.result, "123456789");
    assert_eq!(env.status, "1");
    assert_eq!(env.message, "OK");
}

#[test]
fn envelope_error_status_still_yields_payload() {
    let j = envelope("0", "Error", s("0"));
    let env = Etherscan::<String>::decode_text(&j).unwrap();
    assert_eq!(env.result, "0");
    assert_eq!(env.status, "0");
}

#[test]
fn envelope_missing_or_mistyped_members_fail() {
    let no_status = obj(vec![("message", s("OK")), ("result", s("1"))]);
    assert!(is_decode(&Etherscan::<String>::decode_text(&no_status)));
    let number_result = envelope("1", "OK", Json::Number(String::from("5")));
    assert!(is_decode(&Etherscan::<String>::decode_text(&number_result)));
    let not_object = Json::Array(vec![s("1")]);
    assert!(is_decode(&Etherscan::<String>::decode_text(&not_object)));
    assert!(is_decode(&Etherscan::<String>::decode_text(&Json::Null)));
}

#[test]
fn is_valid_flag_must_be_boolean() {
    let yes = obj(vec![("isvalid", s("yes"))]);
    assert!(is_decode(&ValidateAddress::decode(&yes)));
    let t = obj(vec![("isvalid", Json::Bool(true))]);
    assert_eq!(ValidateAddress::decode(&t).unwrap(), ValidateAddress { is_valid: true });
    let f = obj(vec![("error", s("x")), ("isvalid", Json::Bool(false))]);
    assert_eq!(ValidateAddress::decode(&f).unwrap().is_valid, false);
    assert!(is_decode(&ValidateAddress::decode(&obj(vec![]))));
}

#[test]
fn large_value_is_preserved() {
    let j = envelope("1", "OK", Json::Array(vec![tx_json(MAX_WEI), tx_json("0")]));
    let env = Etherscan::<Vec<EthTransaction>>::decode_transactions(&j).unwrap();
    assert_eq!(env.result.len(), 2);
    assert_eq!(env.result[0].value, MAX_WEI);
    assert_eq!(env.result[1].value, "0");
    assert_eq!(env.result[0].block_number, "<blockNumber>");
    assert_eq!(env.result[0].txreceipt_status, "<txreceipt_status>");
    assert_eq!(env.result[1].confirmations, "<confirmations>");
}

#[test]
fn transaction_list_rejects_bad_element() {
    let bad = obj(vec![("hash", s("0x1"))]);
    let j = Json::Array(vec![tx_json("1"), bad]);
    assert!(is_decode(&decode_transactions(&j)));
    assert!(decode_transactions(&Json::Array(vec![])).unwrap().is_empty());
    assert!(is_decode(&decode_transactions(&s("Max rate limit reached"))));
}

#[test]
fn price_envelope_decodes() {
    let price = obj(vec![
        ("ethbtc", s("0.03")),
        ("ethbtc_timestamp", s("1546300800")),
        ("ethusd", s("130.5")),
        ("ethusd_timestamp", s("1546300801")),
    ]);
    let env = Etherscan::<EthPrice>::decode_price(&envelope("1", "OK", price)).unwrap();
    assert_eq!(
        env.result,
        EthPrice {
            ethbtc: String::from("0.03"),
            ethbtc_timestamp: String::from("1546300800"),
            ethusd: String::from("130.5"),
            ethusd_timestamp: String::from("1546300801"),
        }
    );
    let partial = obj(vec![("ethbtc", s("0.03"))]);
    assert!(is_decode(&Etherscan::<EthPrice>::decode_price(&envelope("1", "OK", partial))));
}

#[test]
fn balance_record_decodes() {
    let j = obj(vec![("account", s("0xab")), ("balance", s("42"))]);
    let b = EthBalance::decode(&j).unwrap();
    assert_eq!(b.account, "0xab");
    assert_eq!(b.balance, "42");
    assert!(is_decode(&EthBalance::decode(&obj(vec![("account", s("0xab"))]))));
}

#[test]
fn transaction_by_hash_decodes() {
    let keys = [
        "blockHash",
        "blockNumber",
        "from",
        "gas",
        "gasPrice",
        "hash",
        "input",
        "nonce",
        "to",
        "transactionIndex",
        "value",
        "v",
        "r",
        "s",
    ];
    let j = obj(keys.iter().map(|k| (*k, s(k))).collect());
    let t = EthTransactionHash::decode(&j).unwrap();
    assert_eq!(t.gas_price, "gasPrice");
    assert_eq!(t.v, "v");
    assert_eq!(t.s, "s");
}

#[test]
fn log_entry_decodes() {
    let j = obj(vec![
        ("address", s("0xa")),
        ("topics", Json::Array(vec![s("t0"), s("t1")])),
        ("data", s("0x")),
        ("blockNumber", s("0x1")),
        ("transactionHash", s("0xh")),
        ("transactionIndex", s("0x0")),
        ("blockHash", s("0xb")),
        ("logIndex", s("0x2")),
        ("removed", Json::Bool(false)),
    ]);
    let l = Ethlog::decode(&j).unwrap();
    assert_eq!(l.topics, vec![String::from("t0"), String::from("t1")]);
    assert_eq!(l.log_index, "0x2");
    assert!(!l.removed);
}

#[test]
fn member_lookup_and_text_list() {
    let j = obj(vec![("a", s("1")), ("b", Json::Null)]);
    assert!(matches!(get_member(&j, "a"), Some(Json::Str(t)) if t == "1"));
    assert!(matches!(get_member(&j, "b"), Some(Json::Null)));
    assert!(get_member(&j, "c").is_none());
    assert!(get_member(&s("a"), "a").is_none());
    assert!(is_decode(&text_list(&Json::Array(vec![s("x"), Json::Bool(true)]))));
}
