//! The error taxonomy and its mapping onto the transport's uniform error.
//!
//! Handlers fail with [`RpcError`], a domain-level taxonomy. Nothing of it
//! crosses the transport boundary directly: [`into_transport`] maps every
//! handler error to a [`TransportError`], the structured `{code, message,
//! optional data}` object the wire protocol expects. The mapping is a pure
//! function of the error — [`lemma_error_mapping_deterministic`] states
//! that — so repeated failures of the same kind always look the same to a
//! caller.

use vstd::prelude::*;

verus! {

/// Wire code for a request whose parameters did not decode.
pub const INVALID_PARAMS_CODE: i64 = -32602;

/// Wire code for a request naming no registered method.
pub const METHOD_NOT_FOUND_CODE: i64 = -32601;

/// Wire code for an internal handler failure.
pub const INTERNAL_ERROR_CODE: i64 = -32603;

/// A handler's domain-level failure.
///
/// The named variants carry the application's fixed codes; `Internal`
/// wraps an unexpected failure with its description; `Custom` lets a
/// handler choose its own code, message and optional data payload.
#[derive(Debug, PartialEq, Eq)]
pub enum RpcError {
    FailedToReceiveTransaction,
    ContractNotFound,
    BlockNotFound,
    Internal(String),
    Custom { code: i64, message: String, data: Option<String> },
}

impl Clone for RpcError {
    /// A clone is the same error.
    fn clone(&self) -> (r: Self)
        ensures
            r == *self,
    {
        match self {
            RpcError::FailedToReceiveTransaction => RpcError::FailedToReceiveTransaction,
            RpcError::ContractNotFound => RpcError::ContractNotFound,
            RpcError::BlockNotFound => RpcError::BlockNotFound,
            RpcError::Internal(m) => RpcError::Internal(m.clone()),
            RpcError::Custom { code, message, data } => RpcError::Custom {
                code: *code,
                message: message.clone(),
                data: match data {
                    Some(d) => Some(d.clone()),
                    None => None,
                },
            },
        }
    }
}

/// The transport's uniform error object: a code, a message, and an
/// optional data payload.
#[derive(Clone, Debug, PartialEq, Eq)]
pub struct TransportError {
    pub code: i64,
    pub message: String,
    pub data: Option<String>,
}

/// The wire code each handler error maps to.
pub open spec fn transport_code(e: RpcError) -> i64 {
    match e {
        RpcError::FailedToReceiveTransaction => 1,
        RpcError::ContractNotFound => 20,
        RpcError::BlockNotFound => 24,
        RpcError::Internal(_) => INTERNAL_ERROR_CODE,
        RpcError::Custom { code, .. } => code,
    }
}

/// The wire message each handler error maps to.
pub open spec fn transport_message(e: RpcError) -> Seq<char> {
    match e {
        RpcError::FailedToReceiveTransaction => "Failed to write transaction"@,
        RpcError::ContractNotFound => "Contract not found"@,
        RpcError::BlockNotFound => "Block not found"@,
        RpcError::Internal(m) => m@,
        RpcError::Custom { message, .. } => message@,
    }
}

/// The optional wire data each handler error maps to.
pub open spec fn transport_data(e: RpcError) -> Option<Seq<char>> {
    match e {
        RpcError::Custom { data: Some(d), .. } => Some(d@),
        _ => None,
    }
}

/// The contents of an optional data payload.
pub open spec fn data_view(d: Option<String>) -> Option<Seq<char>> {
    match d {
        Some(s) => Some(s@),
        None => None,
    }
}

/// `t` is the transport representation of the handler error `e`.
pub open spec fn represents(t: TransportError, e: RpcError) -> bool {
    &&& t.code == transport_code(e)
    &&& t.message@ == transport_message(e)
    &&& data_view(t.data) == transport_data(e)
}

/// `t` is the transport error for a request whose parameters did not
/// decode.
pub open spec fn is_invalid_params(t: TransportError) -> bool {
    &&& t.code == INVALID_PARAMS_CODE
    &&& t.message@ == "Invalid params"@
    &&& t.data is None
}

/// `t` is the transport error for a request naming no registered method.
pub open spec fn is_method_not_found(t: TransportError) -> bool {
    &&& t.code == METHOD_NOT_FOUND_CODE
    &&& t.message@ == "Method not found"@
    &&& t.data is None
}

/// The Error Taxonomy Adapter: maps a handler error to the transport's
/// uniform error object.
pub fn into_transport(e: RpcError) -> (t: TransportError)
    ensures
        represents(t, e),
{
    match e {
        RpcError::FailedToReceiveTransaction => TransportError {
            code: 1,
            message: "Failed to write transaction".to_owned(),
            data: None,
        },
        RpcError::ContractNotFound => TransportError {
            code: 20,
            message: "Contract not found".to_owned(),
            data: None,
        },
        RpcError::BlockNotFound => TransportError {
            code: 24,
            message: "Block not found".to_owned(),
            data: None,
        },
        RpcError::Internal(m) => TransportError { code: INTERNAL_ERROR_CODE, message: m, data: None },
        RpcError::Custom { code, message, data } => TransportError { code, message, data },
    }
}

/// The transport error produced when raw parameters do not decode.
pub fn invalid_params_error() -> (t: TransportError)
    ensures
        is_invalid_params(t),
{
    TransportError { code: INVALID_PARAMS_CODE, message: "Invalid params".to_owned(), data: None }
}

/// The transport error produced when a request names no registered method.
pub fn method_not_found_error() -> (t: TransportError)
    ensures
        is_method_not_found(t),
{
    TransportError { code: METHOD_NOT_FOUND_CODE, message: "Method not found".to_owned(), data: None }
}

/// The transport representation of a handler error is a pure function of
/// the error: two transport errors produced for equal handler errors agree
/// in code, message and data, however often and wherever the mapping runs.
pub proof fn lemma_error_mapping_deterministic(
    e1: RpcError,
    e2: RpcError,
    t1: TransportError,
    t2: TransportError,
)
    requires
        e1 == e2,
        represents(t1, e1),
        represents(t2, e2),
    ensures
        t1.code == t2.code,
        t1.message@ == t2.message@,
        data_view(t1.data) == data_view(t2.data),
{
}

} // verus!
