//! A layer around an RPC service that reports each call.

use vstd::prelude::*;

verus! {

/// A service wrapped for reporting. The layer adds nothing to what the
/// service answers.
#[derive(Clone)]
pub struct RpcLoggerMiddleware<S> {
    service: S,
}

impl<S> RpcLoggerMiddleware<S> {
    /// The service inside.
    pub closed spec fn spec_service(&self) -> S {
        self.service
    }

    /// Wraps `service`.
    pub fn new(service: S) -> (res: Self)
        ensures
            res.spec_service() == service,
    {
        Self { service }
    }

    /// The service inside.
    pub fn service(&self) -> (res: &S)
        ensures
            *res == self.spec_service(),
    {
        &self.service
    }
}

} // verus!
