//! The error object of JSON-RPC 2.0, as the gateway answers with it.

use vstd::prelude::*;

verus! {

/// Code of an invalid request; also used for a refused one.
pub const INVALID_REQUEST_CODE: i32 = -32600;

/// Code of invalid method parameters.
pub const INVALID_PARAMS_CODE: i32 = -32602;

/// Code of an internal error.
pub const INTERNAL_ERROR_CODE: i32 = -32603;

/// A JSON-RPC error: a code, a short message and optional detail.
#[derive(Clone, Debug, PartialEq, Eq)]
pub struct RpcError {
    pub code: i32,
    pub message: String,
    pub data: Option<String>,
}

/// `RpcError` with its strings as sequences.
pub struct RpcErrorView {
    pub code: int,
    pub message: Seq<char>,
    pub data: Option<Seq<char>>,
}

impl View for RpcError {
    type V = RpcErrorView;

    open spec fn view(&self) -> RpcErrorView {
        RpcErrorView {
            code: self.code as int,
            message: self.message@,
            data: match self.data {
                Some(d) => Some(d@),
                None => None,
            },
        }
    }
}

/// The error with the given code, message and detail.
pub open spec fn spec_error(code: int, message: Seq<char>, data: Seq<char>) -> RpcErrorView {
    RpcErrorView { code, message, data: Some(data) }
}

impl RpcError {
    /// An error that carries `data` as its detail.
    pub fn owned(code: i32, message: &str, data: &str) -> (res: RpcError)
        ensures
            res@ == spec_error(code as int, message@, data@),
    {
        RpcError {
            code,
            message: message.to_owned(),
            data: Some(data.to_owned()),
        }
    }
}

} // verus!
