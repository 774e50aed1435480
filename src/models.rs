use crate::error::ClientError;
use crate::json::{
    bool_field, bool_member, get_member, into_nullables, member, nullables_from, optional_member,
    take_member, text_field, text_list, text_list_fits, text_list_from, text_member, Json,
};
use vstd::prelude::*;

verus! {

/// The answer of an address check: whether the address is valid.
#[derive(Debug, Clone, Copy, PartialEq, Eq, Structural)]
pub struct ValidateAddress {
    pub is_valid: bool,
}

impl ValidateAddress {
    /// Decodes `{"isvalid": <bool>}`; any other JSON type for `isvalid` is a
    /// decoding error, never coerced.
    pub fn decode(j: &Json) -> (r: Result<ValidateAddress, ClientError>)
        ensures
            match bool_member(*j, "isvalid"@) {
                Some(b) => r matches Ok(v) && v.is_valid == b,
                None => r matches Err(ClientError::Decode(_)),
            },
    {
        match bool_field(j, "isvalid") {
            Ok(b) => Ok(ValidateAddress { is_valid: b }),
            Err(e) => Err(e),
        }
    }
}

/// The wire wrapper of every explorer answer: a status, a message and the
/// payload. The status is not interpreted: a payload is handed on whatever
/// the status says.
#[derive(Debug)]
pub struct Etherscan<T> {
    pub status: String,
    pub message: String,
    pub result: T,
}

/// Whether `j` is an object whose `status` and `message` are JSON strings.
pub open spec fn header_fits(j: Json) -> bool {
    text_member(j, "status"@) is Some && text_member(j, "message"@) is Some
}

/// Whether `status` and `message` hold the texts of those members of `j`.
pub open spec fn header_from(status: Seq<char>, message: Seq<char>, j: Json) -> bool {
    text_member(j, "status"@) == Some(status) && text_member(j, "message"@) == Some(message)
}

fn decode_header(j: &Json) -> (r: Result<(String, String), ClientError>)
    ensures
        match r {
            Ok((status, message)) => header_from(status@, message@, *j),
            Err(e) => !header_fits(*j) && e is Decode,
        },
{
    let status = match text_field(j, "status") {
        Ok(s) => s,
        Err(e) => return Err(e),
    };
    let message = match text_field(j, "message") {
        Ok(s) => s,
        Err(e) => return Err(e),
    };
    Ok((status, message))
}

/// The balance of one account, in wei, as decimal text.
#[derive(Debug, PartialEq, Eq)]
pub struct EthBalance {
    pub account: String,
    pub balance: String,
}

impl EthBalance {
    /// Whether `j` is an object whose members `account` and `balance` are all JSON strings.
    pub open spec fn fits(j: Json) -> bool {
        text_member(j, "account"@) is Some
        && text_member(j, "balance"@) is Some
    }

    /// Whether each field of `self` holds the text of its member of `j`.
    pub open spec fn decoded_from(self, j: Json) -> bool {
        text_member(j, "account"@) == Some(self.account@)
        && text_member(j, "balance"@) == Some(self.balance@)
    }

    /// Decodes an object of the wire format; other members are ignored.
    pub fn decode(j: &Json) -> (r: Result<EthBalance, ClientError>)
        ensures
            match r {
                Ok(v) => v.decoded_from(*j),
                Err(e) => !Self::fits(*j) && e is Decode,
            },
    {
        let account = match text_field(j, "account") {
            Ok(s) => s,
            Err(e) => return Err(e),
        };
        let balance = match text_field(j, "balance") {
            Ok(s) => s,
            Err(e) => return Err(e),
        };
        Ok(EthBalance {
            account,
            balance,
        })
    }
}

/// The last price: two cross rates, each with the Unix time at which it was taken, all as decimal
/// text.
#[derive(Debug, PartialEq, Eq)]
pub struct EthPrice {
    pub ethbtc: String,
    pub ethbtc_timestamp: String,
    pub ethusd: String,
    pub ethusd_timestamp: String,
}

impl EthPrice {
    /// Whether `j` is an object whose members `ethbtc`, `ethbtc_timestamp`, `ethusd` and
    /// `ethusd_timestamp` are all JSON strings.
    pub open spec fn fits(j: Json) -> bool {
        text_member(j, "ethbtc"@) is Some
        && text_member(j, "ethbtc_timestamp"@) is Some
        && text_member(j, "ethusd"@) is Some
        && text_member(j, "ethusd_timestamp"@) is Some
    }

    /// Whether each field of `self` holds the text of its member of `j`.
    pub open spec fn decoded_from(self, j: Json) -> bool {
        text_member(j, "ethbtc"@) == Some(self.ethbtc@)
        && text_member(j, "ethbtc_timestamp"@) == Some(self.ethbtc_timestamp@)
        && text_member(j, "ethusd"@) == Some(self.ethusd@)
        && text_member(j, "ethusd_timestamp"@) == Some(self.ethusd_timestamp@)
    }

    /// Decodes an object of the wire format; other members are ignored.
    pub fn decode(j: &Json) -> (r: Result<EthPrice, ClientError>)
        ensures
            match r {
                Ok(v) => v.decoded_from(*j),
                Err(e) => !Self::fits(*j) && e is Decode,
            },
    {
        let ethbtc = match text_field(j, "ethbtc") {
            Ok(s) => s,
            Err(e) => return Err(e),
        };
        let ethbtc_timestamp = match text_field(j, "ethbtc_timestamp") {
            Ok(s) => s,
            Err(e) => return Err(e),
        };
        let ethusd = match text_field(j, "ethusd") {
            Ok(s) => s,
            Err(e) => return Err(e),
        };
        let ethusd_timestamp = match text_field(j, "ethusd_timestamp") {
            Ok(s) => s,
            Err(e) => return Err(e),
        };
        Ok(EthPrice {
            ethbtc,
            ethbtc_timestamp,
            ethusd,
            ethusd_timestamp,
        })
    }
}

/// One transaction of an account's history, each field as the text the service sent.
#[derive(Debug, PartialEq, Eq)]
pub struct EthTransaction {
    pub block_number: String,
    pub time_stamp: String,
    pub hash: String,
    pub nonce: String,
    pub block_hash: String,
    pub transaction_index: String,
    pub from: String,
    pub to: String,
    pub value: String,
    pub gas: String,
    pub gas_price: String,
    pub is_error: String,
    pub txreceipt_status: String,
    pub input: String,
    pub contract_address: String,
    pub cumulative_gas_used: String,
    pub gas_used: String,
    pub confirmations: String,
}

impl EthTransaction {
    /// Whether `j` is an object whose members named in the wire format (`blockNumber`, `timeStamp`,
    /// `hash`, ... `confirmations`) are all JSON strings.
    pub open spec fn fits(j: Json) -> bool {
        text_member(j, "blockNumber"@) is Some
        && text_member(j, "timeStamp"@) is Some
        && text_member(j, "hash"@) is Some
        && text_member(j, "nonce"@) is Some
        && text_member(j, "blockHash"@) is Some
        && text_member(j, "transactionIndex"@) is Some
        && text_member(j, "from"@) is Some
        && text_member(j, "to"@) is Some
        && text_member(j, "value"@) is Some
        && text_member(j, "gas"@) is Some
        && text_member(j, "gasPrice"@) is Some
        && text_member(j, "isError"@) is Some
        && text_member(j, "txreceipt_status"@) is Some
        && text_member(j, "input"@) is Some
        && text_member(j, "contractAddress"@) is Some
        && text_member(j, "cumulativeGasUsed"@) is Some
        && text_member(j, "gasUsed"@) is Some
        && text_member(j, "confirmations"@) is Some
    }

    /// Whether each field of `self` holds the text of its member of `j`.
    pub open spec fn decoded_from(self, j: Json) -> bool {
        text_member(j, "blockNumber"@) == Some(self.block_number@)
        && text_member(j, "timeStamp"@) == Some(self.time_stamp@)
        && text_member(j, "hash"@) == Some(self.hash@)
        && text_member(j, "nonce"@) == Some(self.nonce@)
        && text_member(j, "blockHash"@) == Some(self.block_hash@)
        && text_member(j, "transactionIndex"@) == Some(self.transaction_index@)
        && text_member(j, "from"@) == Some(self.from@)
        && text_member(j, "to"@) == Some(self.to@)
        && text_member(j, "value"@) == Some(self.value@)
        && text_member(j, "gas"@) == Some(self.gas@)
        && text_member(j, "gasPrice"@) == Some(self.gas_price@)
        && text_member(j, "isError"@) == Some(self.is_error@)
        && text_member(j, "txreceipt_status"@) == Some(self.txreceipt_status@)
        && text_member(j, "input"@) == Some(self.input@)
        && text_member(j, "contractAddress"@) == Some(self.contract_address@)
        && text_member(j, "cumulativeGasUsed"@) == Some(self.cumulative_gas_used@)
        && text_member(j, "gasUsed"@) == Some(self.gas_used@)
        && text_member(j, "confirmations"@) == Some(self.confirmations@)
    }

    /// Decodes an object of the wire format; other members are ignored.
    pub fn decode(j: &Json) -> (r: Result<EthTransaction, ClientError>)
        ensures
            match r {
                Ok(v) => v.decoded_from(*j),
                Err(e) => !Self::fits(*j) && e is Decode,
            },
    {
        let block_number = match text_field(j, "blockNumber") {
            Ok(s) => s,
            Err(e) => return Err(e),
        };
        let time_stamp = match text_field(j, "timeStamp") {
            Ok(s) => s,
            Err(e) => return Err(e),
        };
        let hash = match text_field(j, "hash") {
            Ok(s) => s,
            Err(e) => return Err(e),
        };
        let nonce = match text_field(j, "nonce") {
            Ok(s) => s,
            Err(e) => return Err(e),
        };
        let block_hash = match text_field(j, "blockHash") {
            Ok(s) => s,
            Err(e) => return Err(e),
        };
        let transaction_index = match text_field(j, "transactionIndex") {
            Ok(s) => s,
            Err(e) => return Err(e),
        };
        let from = match text_field(j, "from") {
            Ok(s) => s,
            Err(e) => return Err(e),
        };
        let to = match text_field(j, "to") {
            Ok(s) => s,
            Err(e) => return Err(e),
        };
        let value = match text_field(j, "value") {
            Ok(s) => s,
            Err(e) => return Err(e),
        };
        let gas = match text_field(j, "gas") {
            Ok(s) => s,
            Err(e) => return Err(e),
        };
        let gas_price = match text_field(j, "gasPrice") {
            Ok(s) => s,
            Err(e) => return Err(e),
        };
        let is_error = match text_field(j, "isError") {
            Ok(s) => s,
            Err(e) => return Err(e),
        };
        let txreceipt_status = match text_field(j, "txreceipt_status") {
            Ok(s) => s,
            Err(e) => return Err(e),
        };
        let input = match text_field(j, "input") {
            Ok(s) => s,
            Err(e) => return Err(e),
        };
        let contract_address = match text_field(j, "contractAddress") {
            Ok(s) => s,
            Err(e) => return Err(e),
        };
        let cumulative_gas_used = match text_field(j, "cumulativeGasUsed") {
            Ok(s) => s,
            Err(e) => return Err(e),
        };
        let gas_used = match text_field(j, "gasUsed") {
            Ok(s) => s,
            Err(e) => return Err(e),
        };
        let confirmations = match text_field(j, "confirmations") {
            Ok(s) => s,
            Err(e) => return Err(e),
        };
        Ok(EthTransaction {
            block_number,
            time_stamp,
            hash,
            nonce,
            block_hash,
            transaction_index,
            from,
            to,
            value,
            gas,
            gas_price,
            is_error,
            txreceipt_status,
            input,
            contract_address,
            cumulative_gas_used,
            gas_used,
            confirmations,
        })
    }
}

/// One transaction looked up by its hash, with its signature components.
#[derive(Debug, PartialEq, Eq)]
pub struct EthTransactionHash {
    pub block_hash: String,
    pub block_number: String,
    pub from: String,
    pub gas: String,
    pub gas_price: String,
    pub hash: String,
    pub input: String,
    pub nonce: String,
    pub to: String,
    pub transaction_index: String,
    pub value: String,
    pub v: String,
    pub r: String,
    pub s: String,
}

impl EthTransactionHash {
    /// Whether `j` is an object whose members named in the wire format (`blockHash`, `blockNumber`,
    /// ... `v`, `r`, `s`) are all JSON strings.
    pub open spec fn fits(j: Json) -> bool {
        text_member(j, "blockHash"@) is Some
        && text_member(j, "blockNumber"@) is Some
        && text_member(j, "from"@) is Some
        && text_member(j, "gas"@) is Some
        && text_member(j, "gasPrice"@) is Some
        && text_member(j, "hash"@) is Some
        && text_member(j, "input"@) is Some
        && text_member(j, "nonce"@) is Some
        && text_member(j, "to"@) is Some
        && text_member(j, "transactionIndex"@) is Some
        && text_member(j, "value"@) is Some
        && text_member(j, "v"@) is Some
        && text_member(j, "r"@) is Some
        && text_member(j, "s"@) is Some
    }

    /// Whether each field of `self` holds the text of its member of `j`.
    pub open spec fn decoded_from(self, j: Json) -> bool {
        text_member(j, "blockHash"@) == Some(self.block_hash@)
        && text_member(j, "blockNumber"@) == Some(self.block_number@)
        && text_member(j, "from"@) == Some(self.from@)
        && text_member(j, "gas"@) == Some(self.gas@)
        && text_member(j, "gasPrice"@) == Some(self.gas_price@)
        && text_member(j, "hash"@) == Some(self.hash@)
        && text_member(j, "input"@) == Some(self.input@)
        && text_member(j, "nonce"@) == Some(self.nonce@)
        && text_member(j, "to"@) == Some(self.to@)
        && text_member(j, "transactionIndex"@) == Some(self.transaction_index@)
        && text_member(j, "value"@) == Some(self.value@)
        && text_member(j, "v"@) == Some(self.v@)
        && text_member(j, "r"@) == Some(self.r@)
        && text_member(j, "s"@) == Some(self.s@)
    }

    /// Decodes an object of the wire format; other members are ignored.
    pub fn decode(j: &Json) -> (r: Result<EthTransactionHash, ClientError>)
        ensures
            match r {
                Ok(v) => v.decoded_from(*j),
                Err(e) => !Self::fits(*j) && e is Decode,
            },
    {
        let block_hash = match text_field(j, "blockHash") {
            Ok(s) => s,
            Err(e) => return Err(e),
        };
        let block_number = match text_field(j, "blockNumber") {
            Ok(s) => s,
            Err(e) => return Err(e),
        };
        let from = match text_field(j, "from") {
            Ok(s) => s,
            Err(e) => return Err(e),
        };
        let gas = match text_field(j, "gas") {
            Ok(s) => s,
            Err(e) => return Err(e),
        };
        let gas_price = match text_field(j, "gasPrice") {
            Ok(s) => s,
            Err(e) => return Err(e),
        };
        let hash = match text_field(j, "hash") {
            Ok(s) => s,
            Err(e) => return Err(e),
        };
        let input = match text_field(j, "input") {
            Ok(s) => s,
            Err(e) => return Err(e),
        };
        let nonce = match text_field(j, "nonce") {
            Ok(s) => s,
            Err(e) => return Err(e),
        };
        let to = match text_field(j, "to") {
            Ok(s) => s,
            Err(e) => return Err(e),
        };
        let transaction_index = match text_field(j, "transactionIndex") {
            Ok(s) => s,
            Err(e) => return Err(e),
        };
        let value = match text_field(j, "value") {
            Ok(s) => s,
            Err(e) => return Err(e),
        };
        let v = match text_field(j, "v") {
            Ok(s) => s,
            Err(e) => return Err(e),
        };
        let r = match text_field(j, "r") {
            Ok(s) => s,
            Err(e) => return Err(e),
        };
        let s = match text_field(j, "s") {
            Ok(s) => s,
            Err(e) => return Err(e),
        };
        Ok(EthTransactionHash {
            block_hash,
            block_number,
            from,
            gas,
            gas_price,
            hash,
            input,
            nonce,
            to,
            transaction_index,
            value,
            v,
            r,
            s,
        })
    }
}

/// One log entry of a transaction receipt.
#[derive(Debug, PartialEq, Eq)]
pub struct Ethlog {
    pub address: String,
    pub topics: Vec<String>,
    pub data: String,
    pub block_number: String,
    pub transaction_hash: String,
    pub transaction_index: String,
    pub block_hash: String,
    pub log_index: String,
    pub removed: bool,
}

impl Ethlog {
    /// Whether `j` is an object whose text members are JSON strings, whose
    /// `topics` is an array of strings and whose `removed` is a boolean.
    pub open spec fn fits(j: Json) -> bool {
        text_member(j, "address"@) is Some
        && text_member(j, "data"@) is Some
        && text_member(j, "blockNumber"@) is Some
        && text_member(j, "transactionHash"@) is Some
        && text_member(j, "transactionIndex"@) is Some
        && text_member(j, "blockHash"@) is Some
        && text_member(j, "logIndex"@) is Some
        && bool_member(j, "removed"@) is Some
        && match member(j, "topics"@) {
            Some(t) => text_list_fits(t),
            None => false,
        }
    }

    /// Whether each field of `self` holds its member of `j`.
    pub open spec fn decoded_from(self, j: Json) -> bool {
        text_member(j, "address"@) == Some(self.address@)
        && text_member(j, "data"@) == Some(self.data@)
        && text_member(j, "blockNumber"@) == Some(self.block_number@)
        && text_member(j, "transactionHash"@) == Some(self.transaction_hash@)
        && text_member(j, "transactionIndex"@) == Some(self.transaction_index@)
        && text_member(j, "blockHash"@) == Some(self.block_hash@)
        && text_member(j, "logIndex"@) == Some(self.log_index@)
        && bool_member(j, "removed"@) == Some(self.removed)
        && match member(j, "topics"@) {
            Some(t) => text_list_from(self.topics@, t),
            None => false,
        }
    }

    /// Decodes an object of the wire format; other members are ignored.
    pub fn decode(j: &Json) -> (r: Result<Ethlog, ClientError>)
        ensures
            match r {
                Ok(v) => v.decoded_from(*j),
                Err(e) => !Self::fits(*j) && e is Decode,
            },
    {
        let address = match text_field(j, "address") {
            Ok(s) => s,
            Err(e) => return Err(e),
        };
        let data = match text_field(j, "data") {
            Ok(s) => s,
            Err(e) => return Err(e),
        };
        let block_number = match text_field(j, "blockNumber") {
            Ok(s) => s,
            Err(e) => return Err(e),
        };
        let transaction_hash = match text_field(j, "transactionHash") {
            Ok(s) => s,
            Err(e) => return Err(e),
        };
        let transaction_index = match text_field(j, "transactionIndex") {
            Ok(s) => s,
            Err(e) => return Err(e),
        };
        let block_hash = match text_field(j, "blockHash") {
            Ok(s) => s,
            Err(e) => return Err(e),
        };
        let log_index = match text_field(j, "logIndex") {
            Ok(s) => s,
            Err(e) => return Err(e),
        };
        let topics = match get_member(j, "topics") {
            Some(t) => match text_list(t) {
                Ok(v) => v,
                Err(e) => return Err(e),
            },
            None => return Err(ClientError::Decode(String::from_str("missing member topics"))),
        };
        let removed = match bool_field(j, "removed") {
            Ok(b) => b,
            Err(e) => return Err(e),
        };
        Ok(Ethlog {
            address,
            topics,
            data,
            block_number,
            transaction_hash,
            transaction_index,
            block_hash,
            log_index,
            removed,
        })
    }
}

/// The receipt of a transaction: its logs, and a contract address that may
/// be absent or null.
#[derive(Debug)]
pub struct EthTransactionnReceipt {
    pub block_hash: String,
    pub block_number: String,
    pub contract_address: Option<Json>,
    pub cumulative_gas_used: String,
    pub from: String,
    pub gas_used: String,
    pub ethlogs: Vec<Ethlog>,
    pub logs_bloom: String,
    pub root: String,
    pub to: String,
    pub transaction_hash: String,
    pub transaction_index: String,
}

/// A block header, with a total difficulty that may be absent or null and
/// the ordered references to its uncles, each of which may be null.
#[derive(Debug)]
pub struct EthBlockByNumber {
    pub difficulty: String,
    pub extra_data: String,
    pub gas_limit: String,
    pub gas_used: String,
    pub hash: String,
    pub logs_bloom: String,
    pub miner: String,
    pub mix_hash: String,
    pub nonce: String,
    pub number: String,
    pub parent_hash: String,
    pub receipts_root: String,
    pub sha3_uncles: String,
    pub size: String,
    pub state_root: String,
    pub timestamp: String,
    pub total_difficulty: Option<Json>,
    pub transactions_root: String,
    pub uncles: Vec<Option<Json>>,
}


/// Whether every element of `items` is a log object.
pub open spec fn all_logs_fit(items: Seq<Json>) -> bool {
    forall|i: int| 0 <= i < items.len() ==> #[trigger] Ethlog::fits(items[i])
}

/// Whether `logs` holds, in order, the log entries of `items`.
pub open spec fn all_logs_from(logs: Seq<Ethlog>, items: Seq<Json>) -> bool {
    logs.len() == items.len() && forall|i: int|
        0 <= i < logs.len() ==> (#[trigger] logs[i]).decoded_from(items[i])
}

/// Whether `j` is an array of log objects.
pub open spec fn logs_fit(j: Json) -> bool {
    match j {
        Json::Array(items) => all_logs_fit(items@),
        _ => false,
    }
}

/// Whether `logs` holds, in order, the log entries of the array `j`.
pub open spec fn logs_from(logs: Seq<Ethlog>, j: Json) -> bool {
    match j {
        Json::Array(items) => all_logs_from(logs, items@),
        _ => false,
    }
}

/// Decodes an array of log objects, keeping their order.
pub fn decode_logs(j: &Json) -> (r: Result<Vec<Ethlog>, ClientError>)
    ensures
        match r {
            Ok(logs) => logs_from(logs@, *j),
            Err(e) => !logs_fit(*j) && e is Decode,
        },
{
    match j {
        Json::Array(items) => {
            let mut logs: Vec<Ethlog> = Vec::new();
            let mut i: usize = 0;
            while i < items.len()
                invariant
                    0 <= i <= items@.len(),
                    *j == Json::Array(*items),
                    logs@.len() == i,
                    forall|k: int| 0 <= k < i ==> (#[trigger] logs@[k]).decoded_from(items@[k]),
                decreases items@.len() - i,
            {
                match Ethlog::decode(&items[i]) {
                    Ok(l) => logs.push(l),
                    Err(e) => {
                        assert(!Ethlog::fits(items@[i as int]));
                        return Err(e);
                    },
                }
                i = i + 1;
            }
            Ok(logs)
        },
        _ => Err(ClientError::Decode(String::from_str("expected an array of logs"))),
    }
}

impl EthTransactionnReceipt {
    /// Whether `j` is an object whose text members are JSON strings and whose
    /// `Ethlogs` is an array of log objects; `contractAddress` may be
    /// anything, or absent.
    pub open spec fn fits(j: Json) -> bool {
        text_member(j, "blockHash"@) is Some
        && text_member(j, "blockNumber"@) is Some
        && text_member(j, "cumulativeGasUsed"@) is Some
        && text_member(j, "from"@) is Some
        && text_member(j, "gasUsed"@) is Some
        && text_member(j, "logsBloom"@) is Some
        && text_member(j, "root"@) is Some
        && text_member(j, "to"@) is Some
        && text_member(j, "transactionHash"@) is Some
        && text_member(j, "transactionIndex"@) is Some
        && match member(j, "Ethlogs"@) {
            Some(l) => logs_fit(l),
            None => false,
        }
    }

    /// Whether each field of `self` holds its member of `j`; an absent or
    /// null contract address is `None`.
    pub open spec fn decoded_from(self, j: Json) -> bool {
        text_member(j, "blockHash"@) == Some(self.block_hash@)
        && text_member(j, "blockNumber"@) == Some(self.block_number@)
        && text_member(j, "cumulativeGasUsed"@) == Some(self.cumulative_gas_used@)
        && text_member(j, "from"@) == Some(self.from@)
        && text_member(j, "gasUsed"@) == Some(self.gas_used@)
        && text_member(j, "logsBloom"@) == Some(self.logs_bloom@)
        && text_member(j, "root"@) == Some(self.root@)
        && text_member(j, "to"@) == Some(self.to@)
        && text_member(j, "transactionHash"@) == Some(self.transaction_hash@)
        && text_member(j, "transactionIndex"@) == Some(self.transaction_index@)
        && self.contract_address == optional_member(j, "contractAddress"@)
        && match member(j, "Ethlogs"@) {
            Some(l) => logs_from(self.ethlogs@, l),
            None => false,
        }
    }

    /// Decodes an object of the wire format, taking its contract address
    /// out of it; other members are ignored.
    pub fn decode(j: Json) -> (r: Result<EthTransactionnReceipt, ClientError>)
        ensures
            match r {
                Ok(v) => v.decoded_from(j),
                Err(e) => !Self::fits(j) && e is Decode,
            },
    {
        let block_hash = match text_field(&j, "blockHash") {
            Ok(s) => s,
            Err(e) => return Err(e),
        };
        let block_number = match text_field(&j, "blockNumber") {
            Ok(s) => s,
            Err(e) => return Err(e),
        };
        let cumulative_gas_used = match text_field(&j, "cumulativeGasUsed") {
            Ok(s) => s,
            Err(e) => return Err(e),
        };
        let from = match text_field(&j, "from") {
            Ok(s) => s,
            Err(e) => return Err(e),
        };
        let gas_used = match text_field(&j, "gasUsed") {
            Ok(s) => s,
            Err(e) => return Err(e),
        };
        let logs_bloom = match text_field(&j, "logsBloom") {
            Ok(s) => s,
            Err(e) => return Err(e),
        };
        let root = match text_field(&j, "root") {
            Ok(s) => s,
            Err(e) => return Err(e),
        };
        let to = match text_field(&j, "to") {
            Ok(s) => s,
            Err(e) => return Err(e),
        };
        let transaction_hash = match text_field(&j, "transactionHash") {
            Ok(s) => s,
            Err(e) => return Err(e),
        };
        let transaction_index = match text_field(&j, "transactionIndex") {
            Ok(s) => s,
            Err(e) => return Err(e),
        };
        let ethlogs = match get_member(&j, "Ethlogs") {
            Some(l) => match decode_logs(l) {
                Ok(v) => v,
                Err(e) => return Err(e),
            },
            None => return Err(ClientError::Decode(String::from_str("missing member Ethlogs"))),
        };
        let mut members = match j {
            Json::Object(m) => m,
            _ => return Err(ClientError::Decode(String::from_str("expected an object"))),
        };
        let contract_address = match take_member(&mut members, "contractAddress") {
            Some(Json::Null) => None,
            Some(v) => Some(v),
            None => None,
        };
        Ok(EthTransactionnReceipt {
            block_hash,
            block_number,
            contract_address,
            cumulative_gas_used,
            from,
            gas_used,
            ethlogs,
            logs_bloom,
            root,
            to,
            transaction_hash,
            transaction_index,
        })
    }
}

impl EthBlockByNumber {
    /// Whether `j` is an object whose text members are JSON strings and whose
    /// `uncles` is an array; `totalDifficulty` may be anything, or absent.
    pub open spec fn fits(j: Json) -> bool {
        text_member(j, "difficulty"@) is Some
        && text_member(j, "extraData"@) is Some
        && text_member(j, "gasLimit"@) is Some
        && text_member(j, "gasUsed"@) is Some
        && text_member(j, "hash"@) is Some
        && text_member(j, "logsBloom"@) is Some
        && text_member(j, "miner"@) is Some
        && text_member(j, "mixHash"@) is Some
        && text_member(j, "nonce"@) is Some
        && text_member(j, "number"@) is Some
        && text_member(j, "parentHash"@) is Some
        && text_member(j, "receiptsRoot"@) is Some
        && text_member(j, "sha3Uncles"@) is Some
        && text_member(j, "size"@) is Some
        && text_member(j, "stateRoot"@) is Some
        && text_member(j, "timestamp"@) is Some
        && text_member(j, "transactionsRoot"@) is Some
        && match member(j, "uncles"@) {
            Some(Json::Array(_)) => true,
            _ => false,
        }
    }

    /// Whether each field of `self` holds its member of `j`; an absent or
    /// null total difficulty is `None`, and so is each null uncle.
    pub open spec fn decoded_from(self, j: Json) -> bool {
        text_member(j, "difficulty"@) == Some(self.difficulty@)
        && text_member(j, "extraData"@) == Some(self.extra_data@)
        && text_member(j, "gasLimit"@) == Some(self.gas_limit@)
        && text_member(j, "gasUsed"@) == Some(self.gas_used@)
        && text_member(j, "hash"@) == Some(self.hash@)
        && text_member(j, "logsBloom"@) == Some(self.logs_bloom@)
        && text_member(j, "miner"@) == Some(self.miner@)
        && text_member(j, "mixHash"@) == Some(self.mix_hash@)
        && text_member(j, "nonce"@) == Some(self.nonce@)
        && text_member(j, "number"@) == Some(self.number@)
        && text_member(j, "parentHash"@) == Some(self.parent_hash@)
        && text_member(j, "receiptsRoot"@) == Some(self.receipts_root@)
        && text_member(j, "sha3Uncles"@) == Some(self.sha3_uncles@)
        && text_member(j, "size"@) == Some(self.size@)
        && text_member(j, "stateRoot"@) == Some(self.state_root@)
        && text_member(j, "timestamp"@) == Some(self.timestamp@)
        && text_member(j, "transactionsRoot"@) == Some(self.transactions_root@)
        && self.total_difficulty == optional_member(j, "totalDifficulty"@)
        && match member(j, "uncles"@) {
            Some(Json::Array(items)) => nullables_from(self.uncles@, items@),
            _ => false,
        }
    }

    /// Decodes an object of the wire format, taking its total difficulty
    /// and uncles out of it; other members are ignored.
    pub fn decode(j: Json) -> (r: Result<EthBlockByNumber, ClientError>)
        ensures
            match r {
                Ok(v) => v.decoded_from(j),
                Err(e) => !Self::fits(j) && e is Decode,
            },
    {
        let difficulty = match text_field(&j, "difficulty") {
            Ok(s) => s,
            Err(e) => return Err(e),
        };
        let extra_data = match text_field(&j, "extraData") {
            Ok(s) => s,
            Err(e) => return Err(e),
        };
        let gas_limit = match text_field(&j, "gasLimit") {
            Ok(s) => s,
            Err(e) => return Err(e),
        };
        let gas_used = match text_field(&j, "gasUsed") {
            Ok(s) => s,
            Err(e) => return Err(e),
        };
        let hash = match text_field(&j, "hash") {
            Ok(s) => s,
            Err(e) => return Err(e),
        };
        let logs_bloom = match text_field(&j, "logsBloom") {
            Ok(s) => s,
            Err(e) => return Err(e),
        };
        let miner = match text_field(&j, "miner") {
            Ok(s) => s,
            Err(e) => return Err(e),
        };
        let mix_hash = match text_field(&j, "mixHash") {
            Ok(s) => s,
            Err(e) => return Err(e),
        };
        let nonce = match text_field(&j, "nonce") {
            Ok(s) => s,
            Err(e) => return Err(e),
        };
        let number = match text_field(&j, "number") {
            Ok(s) => s,
            Err(e) => return Err(e),
        };
        let parent_hash = match text_field(&j, "parentHash") {
            Ok(s) => s,
            Err(e) => return Err(e),
        };
        let receipts_root = match text_field(&j, "receiptsRoot") {
            Ok(s) => s,
            Err(e) => return Err(e),
        };
        let sha3_uncles = match text_field(&j, "sha3Uncles") {
            Ok(s) => s,
            Err(e) => return Err(e),
        };
        let size = match text_field(&j, "size") {
            Ok(s) => s,
            Err(e) => return Err(e),
        };
        let state_root = match text_field(&j, "stateRoot") {
            Ok(s) => s,
            Err(e) => return Err(e),
        };
        let timestamp = match text_field(&j, "timestamp") {
            Ok(s) => s,
            Err(e) => return Err(e),
        };
        let transactions_root = match text_field(&j, "transactionsRoot") {
            Ok(s) => s,
            Err(e) => return Err(e),
        };
        let mut members = match j {
            Json::Object(m) => m,
            _ => return Err(ClientError::Decode(String::from_str("expected an object"))),
        };
        let uncles = match take_member(&mut members, "uncles") {
            Some(Json::Array(items)) => into_nullables(items),
            _ => return Err(ClientError::Decode(String::from_str("expected an array of uncles"))),
        };
        proof {
            reveal_strlit("uncles");
            reveal_strlit("totalDifficulty");
            assert("uncles"@.len() != "totalDifficulty"@.len());
        }
        let total_difficulty = match take_member(&mut members, "totalDifficulty") {
            Some(Json::Null) => None,
            Some(v) => Some(v),
            None => None,
        };
        Ok(EthBlockByNumber {
            difficulty,
            extra_data,
            gas_limit,
            gas_used,
            hash,
            logs_bloom,
            miner,
            mix_hash,
            nonce,
            number,
            parent_hash,
            receipts_root,
            sha3_uncles,
            size,
            state_root,
            timestamp,
            total_difficulty,
            transactions_root,
            uncles,
        })
    }
}

/// Whether every element of `items` is a transaction object.
pub open spec fn all_transactions_fit(items: Seq<Json>) -> bool {
    forall|i: int| 0 <= i < items.len() ==> #[trigger] EthTransaction::fits(items[i])
}

/// Whether `txs` holds, in order, the transactions of `items`.
pub open spec fn all_transactions_from(txs: Seq<EthTransaction>, items: Seq<Json>) -> bool {
    txs.len() == items.len() && forall|i: int|
        0 <= i < txs.len() ==> (#[trigger] txs[i]).decoded_from(items[i])
}

/// Whether `j` is an array of transaction objects.
pub open spec fn transactions_fit(j: Json) -> bool {
    match j {
        Json::Array(items) => all_transactions_fit(items@),
        _ => false,
    }
}

/// Whether `txs` holds, in order, the transactions of the array `j`.
pub open spec fn transactions_from(txs: Seq<EthTransaction>, j: Json) -> bool {
    match j {
        Json::Array(items) => all_transactions_from(txs, items@),
        _ => false,
    }
}

/// Decodes an array of transaction objects, keeping their order; the first
/// element that does not fit makes it a decoding error.
pub fn decode_transactions(j: &Json) -> (r: Result<Vec<EthTransaction>, ClientError>)
    ensures
        match r {
            Ok(txs) => transactions_from(txs@, *j),
            Err(e) => !transactions_fit(*j) && e is Decode,
        },
{
    match j {
        Json::Array(items) => {
            let mut txs: Vec<EthTransaction> = Vec::new();
            let mut i: usize = 0;
            while i < items.len()
                invariant
                    0 <= i <= items@.len(),
                    *j == Json::Array(*items),
                    txs@.len() == i,
                    forall|k: int| 0 <= k < i ==> (#[trigger] txs@[k]).decoded_from(items@[k]),
                decreases items@.len() - i,
            {
                match EthTransaction::decode(&items[i]) {
                    Ok(t) => txs.push(t),
                    Err(e) => {
                        assert(!EthTransaction::fits(items@[i as int]));
                        return Err(e);
                    },
                }
                i = i + 1;
            }
            Ok(txs)
        },
        _ => Err(ClientError::Decode(String::from_str("expected an array of transactions"))),
    }
}

impl Etherscan<String> {
    /// Decodes an envelope whose payload is a JSON string (a balance, a
    /// supply).
    pub fn decode_text(j: &Json) -> (r: Result<Etherscan<String>, ClientError>)
        ensures
            match r {
                Ok(env) => header_from(env.status@, env.message@, *j) && text_member(*j, "result"@)
                    == Some(env.result@),
                Err(e) => !(header_fits(*j) && text_member(*j, "result"@) is Some) && e is Decode,
            },
    {
        let (status, message) = match decode_header(j) {
            Ok(h) => h,
            Err(e) => return Err(e),
        };
        let result = match text_field(j, "result") {
            Ok(s) => s,
            Err(e) => return Err(e),
        };
        Ok(Etherscan {
            status,
            message,
            result,
        })
    }
}

impl Etherscan<EthPrice> {
    /// Decodes an envelope whose payload is a price object.
    pub fn decode_price(j: &Json) -> (r: Result<Etherscan<EthPrice>, ClientError>)
        ensures
            match r {
                Ok(env) => header_from(env.status@, env.message@, *j) && match member(
                    *j,
                    "result"@,
                ) {
                    Some(p) => env.result.decoded_from(p),
                    None => false,
                },
                Err(e) => !(header_fits(*j) && match member(*j, "result"@) {
                    Some(p) => EthPrice::fits(p),
                    None => false,
                }) && e is Decode,
            },
    {
        let (status, message) = match decode_header(j) {
            Ok(h) => h,
            Err(e) => return Err(e),
        };
        let result = match get_member(j, "result") {
            Some(p) => match EthPrice::decode(p) {
                Ok(v) => v,
                Err(e) => return Err(e),
            },
            None => return Err(ClientError::Decode(String::from_str("missing member result"))),
        };
        Ok(Etherscan {
            status,
            message,
            result,
        })
    }
}

impl Etherscan<Vec<EthTransaction>> {
    /// Decodes an envelope whose payload is an array of transactions.
    pub fn decode_transactions(j: &Json) -> (r: Result<Etherscan<Vec<EthTransaction>>, ClientError>)
        ensures
            match r {
                Ok(env) => header_from(env.status@, env.message@, *j) && match member(
                    *j,
                    "result"@,
                ) {
                    Some(p) => transactions_from(env.result@, p),
                    None => false,
                },
                Err(e) => !(header_fits(*j) && match member(*j, "result"@) {
                    Some(p) => transactions_fit(p),
                    None => false,
                }) && e is Decode,
            },
    {
        let (status, message) = match decode_header(j) {
            Ok(h) => h,
            Err(e) => return Err(e),
        };
        let result = match get_member(j, "result") {
            Some(p) => match decode_transactions(p) {
                Ok(v) => v,
                Err(e) => return Err(e),
            },
            None => return Err(ClientError::Decode(String::from_str("missing member result"))),
        };
        Ok(Etherscan {
            status,
            message,
            result,
        })
    }
}

} // verus!
