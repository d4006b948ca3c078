//! Error values of the indexer.
use vstd::prelude::*;
use vstd::string::StringExecFns;

verus! {

/// Failure of the indexer as a whole.
#[derive(Debug, Clone)]
pub enum IndexerError {
    /// The endpoint named first could not be reached; the second string is the
    /// cause as text.
    ConnectionError(String, String),
}

/// Failure of a call to the rollup's RPC endpoint.
#[derive(Debug, Clone)]
pub enum RpcClientError {
    /// The endpoint named first could not be reached; the second string is the
    /// cause as text.
    ConnectionError(String, String),
    /// Any other failure, as text.
    Other(String),
}

/// The line that reports a failed connection to `url`.
pub open spec fn connection_failure_text(url: Seq<char>, cause: Seq<char>) -> Seq<char> {
    "connection failed by: "@ + url + ", error: "@ + cause
}

/// Builds the line that reports a failed connection to `url`.
pub fn connection_failure_message(url: &String, cause: &String) -> (text: String)
    ensures
        text@ == connection_failure_text(url@, cause@),
{
    let text = String::from_str("connection failed by: ");
    let text = text.concat(url.as_str());
    let text = text.concat(", error: ");
    text.concat(cause.as_str())
}

impl IndexerError {
    /// What the error says.
    pub open spec fn text(self) -> Seq<char> {
        match self {
            IndexerError::ConnectionError(url, cause) => connection_failure_text(url@, cause@),
        }
    }

    /// The error as one line of text.
    pub fn message(&self) -> (text: String)
        ensures
            text@ == self.text(),
    {
        match self {
            IndexerError::ConnectionError(url, cause) => connection_failure_message(url, cause),
        }
    }
}

impl RpcClientError {
    /// What the error says.
    pub open spec fn text(self) -> Seq<char> {
        match self {
            RpcClientError::ConnectionError(url, cause) => connection_failure_text(url@, cause@),
            RpcClientError::Other(cause) => cause@,
        }
    }

    /// The error as one line of text.
    pub fn message(&self) -> (text: String)
        ensures
            text@ == self.text(),
    {
        match self {
            RpcClientError::ConnectionError(url, cause) => connection_failure_message(url, cause),
            RpcClientError::Other(cause) => cause.clone(),
        }
    }

    /// Whether the call failed before it reached the endpoint, so that trying
    /// again later may succeed.
    pub fn is_connection_error(&self) -> (yes: bool)
        ensures
            yes == (self is ConnectionError),
    {
        match self {
            RpcClientError::ConnectionError(_, _) => true,
            RpcClientError::Other(_) => false,
        }
    }
}

/// Why a binary payload could not be decoded.
#[derive(Debug, Clone, Copy, PartialEq, Eq, Structural)]
pub enum DecodeError {
    /// Polyjuice arguments shorter than their fixed head of 52 bytes.
    PolyjuiceArgsTooShort,
    /// Polyjuice arguments that announce more input than is allowed.
    PolyjuiceInputTooLong,
    /// Polyjuice arguments that end before the announced input does.
    PolyjuiceInputTruncated,
    /// A token log whose payload is not 57 bytes long.
    SudtLogLength,
    /// A token log whose first byte, the width of its addresses, is not 20.
    SudtLogAddressWidth,
    /// A polyjuice system log whose payload is not 40 bytes long.
    SystemLogLength,
    /// A polyjuice user log shorter than its fixed head of 24 bytes.
    UserLogTooShort,
    /// A polyjuice user log that announces more data than is allowed.
    UserLogDataTooLarge,
    /// A polyjuice user log that ends before its data or its topic count does.
    UserLogDataTruncated,
    /// A polyjuice user log that ends before its last topic does.
    UserLogTopicsTruncated,
    /// A polyjuice user log with bytes after its last topic.
    UserLogTrailingBytes,
    /// A log item whose service flag names no known kind of log.
    UnknownServiceFlag,
}


/// Why a block could not be turned into rows.
#[derive(Debug, Clone, Copy, PartialEq, Eq, Structural)]
pub enum TransformError {
    /// The block holds more transactions than a transaction index can count.
    TooManyTransactions,
    /// The rollup knows no script for the account.
    ScriptNotFound { account_id: u32 },
    /// The sender's script arguments are not 52 bytes that begin with the
    /// rollup's type hash.
    WrongSenderArgs,
    /// A payload of the transaction or of its receipt could not be decoded.
    Decode(DecodeError),
    /// The arguments of a call to the token account could not be read.
    SudtArgsUnreadable,
    /// The rollup holds no receipt for the transaction.
    ReceiptNotFound,
    /// The receipt holds more logs than a log index can count.
    TooManyLogs,
    /// The receipt of a polyjuice transaction holds no system log.
    MissingSystemLog,
    /// The gas of the block's transactions does not add up within 128 bits.
    GasOverflow,
    /// An answer arrived that was not asked for.
    OutOfTurn,
}


/// Why bytes could not be written as hexadecimal text.
#[derive(Debug, Clone, Copy, PartialEq, Eq, Structural)]
pub enum HexError {
    /// The text would be longer than a string can be.
    TooLong,
}

} // verus!
