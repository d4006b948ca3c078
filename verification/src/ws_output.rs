//! The envelopes that the rollup's subscription endpoint sends: an answer to
//! a request, a notification of a subscription, or a failure.
use jsonrpc_core::{Error, Id, Value, Version};
use vstd::prelude::*;

verus! {

/// `serde_json::Value`, a JSON value, carried through as it is.
#[verifier::external_type_specification]
#[verifier::external_body]
pub struct ExValue(serde_json::Value);

/// `jsonrpc_core::Id`, the id of a request, carried through as it is.
#[verifier::external_type_specification]
#[verifier::external_body]
pub struct ExId(jsonrpc_core::Id);

/// `jsonrpc_core::Version`, the protocol version, carried through as it is.
#[verifier::external_type_specification]
#[verifier::external_body]
pub struct ExVersion(jsonrpc_core::Version);

/// `jsonrpc_core::Error`, the error object of a failure, carried through as it
/// is.
#[verifier::external_type_specification]
#[verifier::external_body]
pub struct ExError(jsonrpc_core::Error);

/// A successful answer, in one of its two shapes.
#[derive(Debug)]
pub enum Success {
    HttpSuccess(HttpSuccess),
    WsSuccess(WsSuccess),
}

/// The answer to a request.
#[derive(Debug)]
pub struct HttpSuccess {
    /// Protocol version.
    pub jsonrpc: Option<Version>,
    /// The result.
    pub result: Value,
    /// The id of the request answered.
    pub id: Id,
}

/// The notification of a subscription.
#[derive(Debug)]
pub struct WsSuccess {
    /// Protocol version.
    pub jsonrpc: Option<Version>,
    /// What is notified.
    pub params: WsParams,
    /// The method notified of.
    pub method: String,
}

/// What a notification carries.
#[derive(Debug)]
pub struct WsParams {
    /// The result.
    pub result: Value,
    /// The subscription that the result belongs to.
    pub subscription: String,
}

/// A failure.
#[derive(Debug)]
pub struct Failure {
    /// Protocol version.
    pub jsonrpc: Option<Version>,
    /// The error.
    pub error: Error,
    /// The id of the request that failed.
    pub id: Id,
}

/// An envelope: a success or a failure.
#[derive(Debug)]
pub enum Output {
    Success(Success),
    Failure(Failure),
}

/// What an envelope holds: the result of a success, whichever its shape, or
/// the error of a failure.
pub open spec fn payload_of(output: Output) -> Result<Value, Error> {
    match output {
        Output::Success(Success::HttpSuccess(s)) => Ok(s.result),
        Output::Success(Success::WsSuccess(s)) => Ok(s.params.result),
        Output::Failure(f) => Err(f.error),
    }
}

/// Takes out of an envelope what it holds.
pub fn to_result(output: Output) -> (r: Result<Value, Error>)
    ensures
        r == payload_of(output),
{
    match output {
        Output::Success(Success::HttpSuccess(s)) => Ok(s.result),
        Output::Success(Success::WsSuccess(s)) => Ok(s.params.result),
        Output::Failure(f) => Err(f.error),
    }
}

} // verus!
