//! The subscription to the receipts of failed transactions: what is sent to
//! subscribe, and what is done with each message that arrives.
use crate::ws_output::{payload_of, to_result, Output};
use jsonrpc_core::{Error, Value};
use vstd::prelude::*;

verus! {

/// Seconds to wait before connecting again.
pub const RECONNECT_SECONDS: u64 = 3;

/// The frame that subscribes to the receipts of failed transactions.
pub const SUBSCRIBE_REQUEST: &'static str =
    "{\"jsonrpc\": \"2.0\", \"id\": 1, \"method\": \"subscribe\", \"params\": [\"new_error_tx_receipt\"]}";

/// What the listener does with a text message.
#[derive(Debug)]
pub enum ListenAction {
    /// Read the value as the receipt of a failed transaction and index it.
    Index(Value),
    /// The envelope reports a failure: note it and go on listening.
    Note(Error),
    /// The message is no envelope: drop the connection and, after this many
    /// seconds, connect again.
    Reconnect { seconds: u64 },
}

/// What the listener does with a text message that was read as `envelope`,
/// or could not be read as one.
pub open spec fn listen_action(envelope: Option<Output>) -> ListenAction {
    match envelope {
        Some(output) => match payload_of(output) {
            Ok(value) => ListenAction::Index(value),
            Err(error) => ListenAction::Note(error),
        },
        None => ListenAction::Reconnect { seconds: RECONNECT_SECONDS },
    }
}

/// Says what is to be done with a text message.
pub fn on_text_message(envelope: Option<Output>) -> (action: ListenAction)
    ensures
        action == listen_action(envelope),
{
    match envelope {
        Some(output) => match to_result(output) {
            Ok(value) => ListenAction::Index(value),
            Err(error) => ListenAction::Note(error),
        },
        None => ListenAction::Reconnect { seconds: RECONNECT_SECONDS },
    }
}

} // verus!
