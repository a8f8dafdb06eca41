//! The errors with which the proxy answers.

use vstd::prelude::*;
use vstd::string::StringExecFns;
use crate::rpc::{
    spec_error, RpcError, RpcErrorView, INTERNAL_ERROR_CODE, INVALID_PARAMS_CODE,
    INVALID_REQUEST_CODE,
};

verus! {

/// How a call to the upstream failed.
#[derive(Clone, Debug)]
pub enum ClientError {
    /// The upstream answered with a JSON-RPC error.
    Call(RpcError),
    /// The call did not get through, or its answer could not be read; the
    /// text says what went wrong.
    Transport(String),
}

/// What `unauthorized` answers.
pub open spec fn spec_unauthorized() -> RpcErrorView {
    spec_error(INVALID_REQUEST_CODE as int, "unauthorized"@, "unauthorized"@)
}

/// What the proxy's `internal_error` answers for the given text.
pub open spec fn spec_internal_error(msg: Seq<char>) -> RpcErrorView {
    spec_error(INTERNAL_ERROR_CODE as int, "internal_error"@, msg)
}

/// What `invalid_params` answers for the given text.
pub open spec fn spec_invalid_params(msg: Seq<char>) -> RpcErrorView {
    spec_error(INVALID_PARAMS_CODE as int, "Invalid params"@, msg)
}

/// What `proxy_call_failed` answers for the given failure.
pub open spec fn spec_proxy_call_failed(e: ClientError) -> RpcErrorView {
    match e {
        ClientError::Call(error) => error@,
        ClientError::Transport(text) => spec_error(
            INTERNAL_ERROR_CODE as int,
            "Internal error"@,
            "proxy_call_failed: "@ + text@,
        ),
    }
}

/// The caller may not do this.
pub fn unauthorized() -> (res: RpcError)
    ensures
        res@ == spec_unauthorized(),
{
    RpcError::owned(INVALID_REQUEST_CODE, "unauthorized", "unauthorized")
}

/// The proxy failed on its own side; `msg` says at what.
pub fn internal_error(msg: &str) -> (res: RpcError)
    ensures
        res@ == spec_internal_error(msg@),
{
    RpcError::owned(INTERNAL_ERROR_CODE, "internal_error", msg)
}

/// The request cannot be read; `msg` says why.
pub fn invalid_params(msg: &str) -> (res: RpcError)
    ensures
        res@ == spec_invalid_params(msg@),
{
    RpcError::owned(INVALID_PARAMS_CODE, "Invalid params", msg)
}

/// The answer to a caller whose request failed at the upstream: the
/// upstream's own error where it gave one, an internal error otherwise.
pub fn proxy_call_failed(e: ClientError) -> (res: RpcError)
    ensures
        res@ == spec_proxy_call_failed(e),
{
    match e {
        ClientError::Call(error) => error,
        ClientError::Transport(text) => RpcError::owned(
            INTERNAL_ERROR_CODE,
            "Internal error",
            String::from_str("proxy_call_failed: ").concat(text.as_str()).as_str(),
        ),
    }
}

} // verus!
