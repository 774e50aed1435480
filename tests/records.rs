use coinmarket::error::ClientError;
use coinmarket::json::{take_member, Json};
use coinmarket::models::{EthBlockByNumber, EthTransactionnReceipt};

fn s(t: &str) -> Json {
    Json::Str(String::from(t))
}

fn obj(members: Vec<(&str, Json)>) -> Json {
    Json::Object(members.into_iter().map(|(k, v)| (String::from(k), v)).collect())
}

const RECEIPT_KEYS: [&str; 10] = [
    "blockHash",
    "blockNumber",
    "cumulativeGasUsed",
    "from",
    "gasUsed",
    "logsBloom",
    "root",
    "to",
    "transactionHash",
    "transactionIndex",
];

const BLOCK_KEYS: [&str; 17] = [
    "difficulty",
    "extraData",
    "gasLimit",
    "gasUsed",
    "hash",
    "logsBloom",
    "miner",
    "mixHash",
    "nonce",
    "number",
    "parentHash",
    "receiptsRoot",
    "sha3Uncles",
    "size",
    "stateRoot",
    "timestamp",
    "transactionsRoot",
];

fn log_json(i: &str) -> Json {
    obj(vec![
        ("address", s("0xa")),
        ("topics", Json::Array(vec![s(i)])),
        ("data", s("0x")),
        ("blockNumber", s("0x1")),
        ("transactionHash", s("0xh")),
        ("transactionIndex", s("0x0")),
        ("blockHash", s("0xb")),
        ("logIndex", s(i)),
        ("removed", Json::Bool(true)),
    ])
}

fn receipt_json(contract: Option<Json>) -> Json {
    let mut members: Vec<(&str, Json)> = RECEIPT_KEYS.iter().map(|k| (*k, s(k))).collect();
    members.push(("Ethlogs", Json::Array(vec![log_json("0x0"), log_json("0x1")])));
    if let Some(c) = contract {
        members.push(("contractAddress", c));
    }
    obj(members)
}

fn block_json(total: Option<Json>, uncles: Json) -> Json {
    let mut members: Vec<(&str, Json)> = BLOCK_KEYS.iter().map(|k| (*k, s(k))).collect();
    members.push(("uncles", uncles));
    if let Some(t) = total {
        members.push(("totalDifficulty", t));
    }
    obj(members)
}

#[test]
fn receipt_with_contract_address() {
    let r = EthTransactionnReceipt::decode(receipt_json(Some(s("0xc0de")))).unwrap();
    assert!(matches!(r.contract_address, Some(Json::Str(ref a)) if a == "0xc0de"));
    assert_eq!(r.ethlogs.len(), 2);
    assert_eq!(r.ethlogs[1].log_index, "0x1");
    assert_eq!(r.transaction_hash, "transactionHash");
    assert_eq!(r.root, "root");
}

#[test]
fn receipt_contract_address_null_or_absent() {
    let r = EthTransactionnReceipt::decode(receipt_json(Some(Json::Null))).unwrap();
    assert!(r.contract_address.is_none());
    let r = EthTransactionnReceipt::decode(receipt_json(None)).unwrap();
    assert!(r.contract_address.is_none());
}

#[test]
fn receipt_without_logs_fails() {
    let members: Vec<(&str, Json)> = RECEIPT_KEYS.iter().map(|k| (*k, s(k))).collect();
    let r = EthTransactionnReceipt::decode(obj(members));
    assert!(matches!(r, Err(ClientError::Decode(_))));
}

#[test]
fn block_with_nullable_fields() {
    let uncles = Json::Array(vec![s("0xu1"), Json::Null, s("0xu3")]);
    let b = EthBlockByNumber::decode(block_json(Some(s("0x10")), uncles)).unwrap();
    assert!(matches!(b.total_difficulty, Some(Json::Str(ref t)) if t == "0x10"));
    assert_eq!(b.uncles.len(), 3);
    assert!(matches!(b.uncles[0], Some(Json::Str(ref u)) if u == "0xu1"));
    assert!(b.uncles[1].is_none());
    assert_eq!(b.transactions_root, "transactionsRoot");
    assert_eq!(b.sha3_uncles, "sha3Uncles");
}

#[test]
fn block_total_difficulty_null_or_absent() {
    let b = EthBlockByNumber::decode(block_json(Some(Json::Null), Json::Array(vec![]))).unwrap();
    assert!(b.total_difficulty.is_none());
    assert!(b.uncles.is_empty());
    let b = EthBlockByNumber::decode(block_json(None, Json::Array(vec![]))).unwrap();
    assert!(b.total_difficulty.is_none());
}

#[test]
fn block_uncles_must_be_array() {
    let r = EthBlockByNumber::decode(block_json(None, Json::Null));
    assert!(matches!(r, Err(ClientError::Decode(_))));
}

#[test]
fn take_member_moves_first_match() {
    let mut members = vec![
        (String::from("a"), s("1")),
        (String::from("b"), s("2")),
        (String::from("a"), s("3")),
    ];
    assert!(matches!(take_member(&mut members, "a"), Some(Json::Str(ref v)) if v == "1"));
    assert_eq!(members.len(), 2);
    assert!(matches!(take_member(&mut members, "a"), Some(Json::Str(ref v)) if v == "3"));
    assert!(take_member(&mut members, "z").is_none());
}
