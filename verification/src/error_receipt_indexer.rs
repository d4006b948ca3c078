//! The cache of receipts of failed transactions: which record a receipt
//! becomes, and when old records are cleared.
use crate::helper::{log_of, parse_log, GwLog, GwLogView};
use crate::outside::{abi_decode_string, decoded_strings_view, ethabi_decoded_strings};
use crate::types::{bytes_between, push_bytes, LogItem, H256};
use vstd::prelude::*;
use vstd::utf8::encode_utf8;

verus! {

/// The most bytes that a status reason holds.
pub const MAX_RETURN_DATA: usize = 32;

/// How many blocks behind the newest failed receipt a record is kept.
pub const MAX_ERROR_TX_RECEIPT_BLOCKS: u64 = 3;

/// The receipt of a transaction that failed.
#[derive(Debug, Clone)]
pub struct ErrorTxReceipt {
    /// The hash of the transaction.
    pub tx_hash: H256,
    /// The block in which it failed.
    pub block_number: u64,
    /// What the execution returned.
    pub return_data: Vec<u8>,
    /// The last log that the execution wrote, if any.
    pub last_log: Option<LogItem>,
    /// How the execution ended.
    pub exit_code: u8,
}

/// One row of the table of failed transactions.
#[derive(Debug, Clone)]
pub struct ErrorReceiptRecord {
    pub tx_hash: H256,
    pub block_number: u64,
    pub cumulative_gas_used: u64,
    pub gas_used: u64,
    pub status_code: u32,
    pub status_reason: Vec<u8>,
}

/// What an `ErrorReceiptRecord` stands for.
#[verifier::ext_equal]
pub struct ErrorReceiptRecordView {
    pub tx_hash: Seq<u8>,
    pub block_number: u64,
    pub cumulative_gas_used: u64,
    pub gas_used: u64,
    pub status_code: u32,
    pub status_reason: Seq<u8>,
}

impl View for ErrorReceiptRecord {
    type V = ErrorReceiptRecordView;

    open spec fn view(&self) -> ErrorReceiptRecordView {
        ErrorReceiptRecordView {
            tx_hash: self.tx_hash@,
            block_number: self.block_number,
            cumulative_gas_used: self.cumulative_gas_used,
            gas_used: self.gas_used,
            status_code: self.status_code,
            status_reason: self.status_reason@,
        }
    }
}

/// The first `limit` bytes of `bytes`, or all of them where there are fewer.
pub open spec fn first_bytes(bytes: Seq<u8>, limit: nat) -> Seq<u8> {
    if bytes.len() <= limit {
        bytes
    } else {
        bytes.take(limit as int)
    }
}

/// The part of the returned data that may hold a reason: what follows the
/// first four bytes, which name a function.
pub open spec fn reason_payload(return_data: Seq<u8>) -> Seq<u8> {
    if return_data.len() < 4 {
        Seq::<u8>::empty()
    } else {
        return_data.skip(4)
    }
}

/// What the returned data decodes to: on a machine with addresses of 64 bits
/// what the decoder makes of the part that may hold a reason; on any other
/// machine nothing, since the decoder is not called there.
pub open spec fn decoded_reason(return_data: Seq<u8>) -> Option<Seq<Option<Seq<char>>>> {
    if usize::BITS == 64 {
        ethabi_decoded_strings(reason_payload(return_data))
    } else {
        None
    }
}

/// The texts of `tokens` one after the other, as UTF-8 bytes; nothing where
/// one of the values is no text.
pub open spec fn joined_text(tokens: Seq<Option<Seq<char>>>) -> Option<Seq<u8>>
    decreases tokens.len(),
{
    if tokens.len() == 0 {
        Some(Seq::<u8>::empty())
    } else {
        match (joined_text(tokens.drop_last()), tokens.last()) {
            (Some(front), Some(text)) => Some(front + encode_utf8(text)),
            _ => None,
        }
    }
}

/// The status reason of a failed transaction: the first 32 bytes of the text
/// that its returned data decodes to, or, where it decodes to no text, the
/// first 32 bytes of the returned data itself.
pub open spec fn status_reason_of(
    return_data: Seq<u8>,
    decoded: Option<Seq<Option<Seq<char>>>>,
) -> Seq<u8> {
    let fallback = first_bytes(return_data, MAX_RETURN_DATA as nat);
    match decoded {
        Some(tokens) => match joined_text(tokens) {
            Some(text) => first_bytes(text, MAX_RETURN_DATA as nat),
            None => fallback,
        },
        None => fallback,
    }
}

/// What the last log says of the execution, where it is a polyjuice system
/// log: the gas used, the cumulative gas used and the status code.
pub open spec fn system_report(last_log: Option<LogItem>) -> Option<(u64, u64, u32)> {
    match last_log {
        Some(item) => match log_of(item.account_id, item.service_flag, item.data@) {
            Ok(GwLogView::PolyjuiceSystem { gas_used, cumulative_gas_used, status_code, .. }) => {
                Some((gas_used, cumulative_gas_used, status_code))
            },
            _ => None,
        },
        None => None,
    }
}

/// The record that `receipt` becomes, where its returned data decoded to
/// `decoded`.
///
/// The gas figures and the status code come from the last log where it is a
/// polyjuice system log, and are zero otherwise. A status code of zero gives
/// way to the receipt's exit code.
pub open spec fn error_receipt_record(
    receipt: ErrorTxReceipt,
    decoded: Option<Seq<Option<Seq<char>>>>,
) -> ErrorReceiptRecordView {
    let (gas_used, cumulative_gas_used, status_code) = match system_report(receipt.last_log) {
        Some(report) => report,
        None => (0u64, 0u64, 0u32),
    };
    ErrorReceiptRecordView {
        tx_hash: receipt.tx_hash@,
        block_number: receipt.block_number,
        cumulative_gas_used,
        gas_used,
        status_code: if status_code == 0 {
            receipt.exit_code as u32
        } else {
            status_code
        },
        status_reason: status_reason_of(receipt.return_data@, decoded),
    }
}

/// Reads the gas figures and the status code out of the last log.
pub fn read_system_report(last_log: &Option<LogItem>) -> (r: Option<(u64, u64, u32)>)
    ensures
        r == system_report(*last_log),
{
    match last_log {
        Some(item) => match parse_log(item) {
            Ok(GwLog::PolyjuiceSystem { gas_used, cumulative_gas_used, status_code, .. }) => Some(
                (gas_used, cumulative_gas_used, status_code),
            ),
            _ => None,
        },
        None => None,
    }
}

/// Joins the decoded texts, or finds that one of the values is no text.
pub fn join_texts(tokens: &Vec<Option<String>>) -> (r: Option<Vec<u8>>)
    ensures
        match r {
            Some(bytes) => decoded_strings_view(Some(*tokens)) matches Some(views) && joined_text(
                views,
            ) == Some(bytes@),
            None => decoded_strings_view(Some(*tokens)) matches Some(views) && joined_text(views)
                is None,
        },
{
    let ghost views = decoded_strings_view(Some(*tokens))->Some_0;
    let mut out: Vec<u8> = Vec::new();
    let mut i: usize = 0;
    assert(views.take(0) =~= Seq::<Option<Seq<char>>>::empty());
    while i < tokens.len()
        invariant
            i <= tokens@.len(),
            views == decoded_strings_view(Some(*tokens))->Some_0,
            joined_text(views.take(i as int)) == Some(out@),
        decreases tokens.len() - i,
    {
        proof {
            assert(views.take(i + 1).drop_last() =~= views.take(i as int));
            assert(views.take(i + 1).last() == views[i as int]);
        }
        match &tokens[i] {
            Some(text) => {
                push_bytes(&mut out, text.as_str().as_bytes());
            },
            None => {
                proof {
                    lemma_joined_text_none_stays(views, i + 1);
                }
                return None;
            },
        }
        i += 1;
    }
    assert(views.take(tokens@.len() as int) =~= views);
    Some(out)
}

/// Once a value that is no text has been met, the whole has no text.
pub proof fn lemma_joined_text_none_stays(tokens: Seq<Option<Seq<char>>>, n: int)
    requires
        0 <= n <= tokens.len(),
        joined_text(tokens.take(n)) is None,
    ensures
        joined_text(tokens) is None,
    decreases tokens.len() - n,
{
    if n < tokens.len() {
        assert(tokens.take(n + 1).drop_last() =~= tokens.take(n));
        lemma_joined_text_none_stays(tokens, n + 1);
    } else {
        assert(tokens.take(n) =~= tokens);
    }
}

/// The status reason of a failed transaction whose returned data decoded to
/// `decoded`.
pub fn status_reason(return_data: &[u8], decoded: &Option<Vec<Option<String>>>) -> (reason: Vec<u8>)
    ensures
        reason@ == status_reason_of(return_data@, decoded_strings_view(*decoded)),
        reason@.len() <= MAX_RETURN_DATA,
{
    let joined = match decoded {
        Some(tokens) => join_texts(tokens),
        None => None,
    };
    match joined {
        Some(text) => {
            if text.len() <= MAX_RETURN_DATA {
                text
            } else {
                let cut = bytes_between(text.as_slice(), 0, MAX_RETURN_DATA);
                assert(text@.subrange(0, MAX_RETURN_DATA as int) =~= text@.take(
                    MAX_RETURN_DATA as int,
                ));
                cut
            }
        },
        None => {
            let keep = if return_data.len() <= MAX_RETURN_DATA {
                return_data.len()
            } else {
                MAX_RETURN_DATA
            };
            let cut = bytes_between(return_data, 0, keep);
            assert(return_data@.subrange(0, keep as int) =~= first_bytes(
                return_data@,
                MAX_RETURN_DATA as nat,
            ));
            cut
        },
    }
}

impl ErrorReceiptRecord {
    /// The record that `receipt` becomes, where its returned data decoded to
    /// `decoded`.
    pub fn from_decoded(receipt: ErrorTxReceipt, decoded: Option<Vec<Option<String>>>) -> (record:
        ErrorReceiptRecord)
        ensures
            record@ == error_receipt_record(receipt, decoded_strings_view(decoded)),
            record.status_reason@.len() <= MAX_RETURN_DATA,
    {
        let (gas_used, cumulative_gas_used, status_code) = match read_system_report(
            &receipt.last_log,
        ) {
            Some(report) => report,
            None => (0, 0, 0),
        };
        let status_reason = status_reason(receipt.return_data.as_slice(), &decoded);
        ErrorReceiptRecord {
            tx_hash: receipt.tx_hash,
            block_number: receipt.block_number,
            cumulative_gas_used,
            gas_used,
            status_code: if status_code == 0 {
                receipt.exit_code as u32
            } else {
                status_code
            },
            status_reason,
        }
    }

    /// The record that `receipt` becomes: its returned data, past the four
    /// bytes that name a function, is decoded as one string. On a machine
    /// whose addresses have not 64 bits the data is not decoded, and the
    /// reason is the first bytes of the returned data.
    pub fn from(receipt: ErrorTxReceipt) -> (record: ErrorReceiptRecord)
        ensures
            record@ == error_receipt_record(receipt, decoded_reason(receipt.return_data@)),
            usize::BITS != 64 ==> record.status_reason@ == first_bytes(
                receipt.return_data@,
                MAX_RETURN_DATA as nat,
            ),
            record.status_reason@.len() <= MAX_RETURN_DATA,
    {
        let decoded = decode_reason(receipt.return_data.as_slice());
        ErrorReceiptRecord::from_decoded(receipt, decoded)
    }
}

/// Decodes the part of the returned data that may hold a reason, on a machine
/// with addresses of 64 bits; decodes nothing on any other.
pub fn decode_reason(return_data: &[u8]) -> (decoded: Option<Vec<Option<String>>>)
    ensures
        decoded_strings_view(decoded) == decoded_reason(return_data@),
        usize::BITS != 64 ==> decoded is None,
{
    if usize::BITS != 64 {
        return None;
    }
    if return_data.len() < 4 {
        let nothing: Vec<u8> = Vec::new();
        assert(nothing@ =~= reason_payload(return_data@));
        abi_decode_string(nothing.as_slice())
    } else {
        let payload = bytes_between(return_data, 4, return_data.len());
        assert(payload@ =~= reason_payload(return_data@));
        abi_decode_string(payload.as_slice())
    }
}

/// What is to be done about one failed receipt.
#[derive(Debug, Clone)]
pub struct ErrorReceiptWork {
    /// The block number up to which old records are to be cleared, if the
    /// receipt is newer than all seen before.
    pub clear_up_to: Option<u64>,
    /// The record to insert.
    pub record: ErrorReceiptRecord,
}

/// The block number up to which records are cleared once a receipt of block
/// `latest_block` has been seen.
pub open spec fn expired_block(latest_block: u64) -> u64 {
    if latest_block < MAX_ERROR_TX_RECEIPT_BLOCKS {
        0
    } else {
        (latest_block - MAX_ERROR_TX_RECEIPT_BLOCKS) as u64
    }
}

/// Keeps track of the newest block that a failed receipt was seen of.
pub struct ErrorReceiptIndexer {
    latest_block: u64,
}

impl ErrorReceiptIndexer {
    /// The newest block that a failed receipt was seen of; zero at first.
    pub closed spec fn latest_block(&self) -> u64 {
        self.latest_block
    }

    /// An indexer that has seen no receipt.
    pub fn new() -> (indexer: ErrorReceiptIndexer)
        ensures
            indexer.latest_block() == 0,
    {
        ErrorReceiptIndexer { latest_block: 0 }
    }

    /// Takes one failed receipt and says what is to be done: the record to
    /// insert, and, where the receipt's block is newer than every block seen
    /// before, the block up to which old records are to be cleared.
    pub fn handle_error_receipt(&mut self, receipt: ErrorTxReceipt) -> (work: ErrorReceiptWork)
        ensures
            final(self).latest_block() == if old(self).latest_block() < receipt.block_number {
                receipt.block_number
            } else {
                old(self).latest_block()
            },
            work.clear_up_to == if old(self).latest_block() < receipt.block_number {
                Some(expired_block(receipt.block_number))
            } else {
                None
            },
            work.record@ == error_receipt_record(receipt, decoded_reason(receipt.return_data@)),
            usize::BITS != 64 ==> work.record.status_reason@ == first_bytes(
                receipt.return_data@,
                MAX_RETURN_DATA as nat,
            ),
            work.record.status_reason@.len() <= MAX_RETURN_DATA,
    {
        let clear_up_to = if self.latest_block < receipt.block_number {
            self.latest_block = receipt.block_number;
            Some(self.latest_block.saturating_sub(MAX_ERROR_TX_RECEIPT_BLOCKS))
        } else {
            None
        };
        ErrorReceiptWork { clear_up_to, record: ErrorReceiptRecord::from(receipt) }
    }
}

impl Default for ErrorReceiptIndexer {
    fn default() -> (indexer: ErrorReceiptIndexer)
        ensures
            indexer.latest_block() == 0,
    {
        ErrorReceiptIndexer::new()
    }
}

} // verus!
