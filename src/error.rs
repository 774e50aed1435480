use vstd::prelude::*;

verus! {

/// The ways a client operation can fail.
#[derive(Debug, PartialEq, Eq)]
pub enum ClientError {
    /// The API key is absent, or the local credentials file is malformed.
    Config(String),
    /// The transport failed: name resolution, connection, timeout, or an
    /// unreadable HTTP answer.
    Request(String),
    /// The answer is not JSON, or does not have the expected shape.
    Decode(String),
}

} // verus!
