//! The wall clock.

use vstd::prelude::*;

verus! {

/// `chrono::Utc::now`, as whole seconds of Unix time. Nothing is known of
/// the value: two calls may differ in either direction.
#[verifier::external_body]
pub(crate) fn unix_time() -> u64 {
    chrono::Utc::now().timestamp() as u64
}

} // verus!
