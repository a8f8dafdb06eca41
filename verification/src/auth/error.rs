//! The errors with which the sign-in methods answer.

use vstd::prelude::*;
use crate::rpc::{spec_error, RpcError, RpcErrorView, INTERNAL_ERROR_CODE, INVALID_PARAMS_CODE};

verus! {

/// What `invalid_params` answers for the given detail.
pub open spec fn spec_invalid_params(details: Seq<char>) -> RpcErrorView {
    spec_error(INVALID_PARAMS_CODE as int, "Invalid params"@, details)
}

/// What `internal_error` answers for the given detail.
pub open spec fn spec_internal_error(details: Seq<char>) -> RpcErrorView {
    spec_error(INTERNAL_ERROR_CODE as int, "Internal error"@, details)
}

/// The caller's parameters were refused; `details` says why.
pub fn invalid_params(details: &str) -> (res: RpcError)
    ensures
        res@ == spec_invalid_params(details@),
{
    RpcError::owned(INVALID_PARAMS_CODE, "Invalid params", details)
}

/// The gateway failed on its own side; `details` says at what.
pub fn internal_error(details: &str) -> (res: RpcError)
    ensures
        res@ == spec_internal_error(details@),
{
    RpcError::owned(INTERNAL_ERROR_CODE, "Internal error", details)
}

} // verus!
