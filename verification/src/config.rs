//! The configuration that the indexer is started with.
use crate::helper::hex_text;
use crate::outside::hex_string;
use crate::types::H256;
use vstd::prelude::*;
use vstd::string::StringExecFns;

verus! {

/// The indexer's configuration.
#[derive(Debug, Clone)]
pub struct IndexerConfig {
    /// The code hash of the token account's script.
    pub l2_sudt_type_script_hash: H256,
    /// The code hash of polyjuice contracts.
    pub polyjuice_type_script_hash: H256,
    /// The type hash of the rollup.
    pub rollup_type_hash: H256,
    /// The code hash of the Ethereum-style account lock.
    pub eth_account_lock_hash: H256,
    /// The code hash of the Tron-style account lock, if one is set.
    pub tron_account_lock_hash: Option<H256>,
    /// Where the rollup's RPC endpoint is.
    pub godwoken_rpc_url: String,
    /// Where the rollup's subscription endpoint is.
    pub ws_rpc_url: String,
    /// Where the database is.
    pub pg_url: String,
    /// The chain id under which polyjuice transactions are hashed.
    pub chain_id: u64,
    /// Where errors are reported to, if anywhere.
    pub sentry_dsn: Option<String>,
    /// The environment that errors are reported under, if any.
    pub sentry_environment: Option<String>,
}

/// A hash that may be missing, as text.
pub open spec fn optional_hex_text(hash: Option<H256>) -> Seq<char> {
    match hash {
        Some(h) => hex_text(h@),
        None => "null"@,
    }
}

/// A text that may be missing.
pub open spec fn optional_text(text: Option<String>) -> Seq<char> {
    match text {
        Some(t) => t@,
        None => "null"@,
    }
}

/// The configuration on one line: each field's name and value but for the
/// chain id, hashes in hexadecimal, what is missing as `null`.
pub open spec fn config_text(config: IndexerConfig) -> Seq<char> {
    "IndexerConfig { "@ + "l2_sudt_type_script_hash: "@ + hex_text(
        config.l2_sudt_type_script_hash@,
    ) + ", "@ + "polyjuice_type_script_hash: "@ + hex_text(config.polyjuice_type_script_hash@)
        + ", "@ + "rollup_type_hash: "@ + hex_text(config.rollup_type_hash@) + ", "@
        + "eth_account_lock_hash: "@ + hex_text(config.eth_account_lock_hash@) + ", "@
        + "tron_account_lock_hash: "@ + optional_hex_text(config.tron_account_lock_hash) + ", "@
        + "godwoken_rpc_url: "@ + config.godwoken_rpc_url@ + ", "@ + "ws_rpc_url: "@
        + config.ws_rpc_url@ + ", "@ + "pg_url: "@ + config.pg_url@ + "sentry_dsn: "@
        + optional_text(config.sentry_dsn) + ", "@ + "sentry_environment: "@ + optional_text(
        config.sentry_environment,
    ) + ", "@ + " }"@
}

/// Appends a hash as text.
fn push_hash(text: String, hash: &H256) -> (longer: String)
    ensures
        longer@ == text@ + hex_text(hash@),
{
    let digits = hex_string(hash.as_slice());
    let longer = text.concat("0x").concat(digits.as_str());
    assert(longer@ =~= text@ + hex_text(hash@));
    longer
}

impl IndexerConfig {
    /// The configuration on one line.
    pub fn to_text(&self) -> (text: String)
        ensures
            text@ == config_text(*self),
    {
        let text = String::from_str("IndexerConfig { ");
        let text = push_hash(
            text.concat("l2_sudt_type_script_hash: "),
            &self.l2_sudt_type_script_hash,
        );
        let text = text.concat(", ");
        let text = push_hash(
            text.concat("polyjuice_type_script_hash: "),
            &self.polyjuice_type_script_hash,
        );
        let text = text.concat(", ");
        let text = push_hash(text.concat("rollup_type_hash: "), &self.rollup_type_hash);
        let text = text.concat(", ");
        let text = push_hash(text.concat("eth_account_lock_hash: "), &self.eth_account_lock_hash);
        let text = text.concat(", ");
        let text = text.concat("tron_account_lock_hash: ");
        let text = match &self.tron_account_lock_hash {
            Some(hash) => push_hash(text, hash),
            None => text.concat("null"),
        };
        let text = text.concat(", ");
        let text = text.concat("godwoken_rpc_url: ").concat(self.godwoken_rpc_url.as_str());
        let text = text.concat(", ");
        let text = text.concat("ws_rpc_url: ").concat(self.ws_rpc_url.as_str());
        let text = text.concat(", ");
        let text = text.concat("pg_url: ").concat(self.pg_url.as_str());
        let text = text.concat("sentry_dsn: ");
        let text = match &self.sentry_dsn {
            Some(dsn) => text.concat(dsn.as_str()),
            None => text.concat("null"),
        };
        let text = text.concat(", ");
        let text = text.concat("sentry_environment: ");
        let text = match &self.sentry_environment {
            Some(environment) => text.concat(environment.as_str()),
            None => text.concat("null"),
        };
        let text = text.concat(", ");
        let text = text.concat(" }");
        assert(text@ =~= config_text(*self));
        text
    }
}

} // verus!
