//! What a caller has proved about itself.

use vstd::prelude::*;
use crate::address::Address;

verus! {

/// The identity established for one request.
#[derive(Clone, Copy, Debug, PartialEq)]
pub enum AccessLevel {
    /// No valid credential was presented.
    Anonymous,
    /// The caller controls this address, and nothing else.
    Basic(Address),
    /// The caller holds an administrator key.
    Full,
}

/// `AccessLevel` with the address as a sequence of bytes.
pub enum AccessLevelView {
    Anonymous,
    Basic(Seq<u8>),
    Full,
}

impl View for AccessLevel {
    type V = AccessLevelView;

    open spec fn view(&self) -> AccessLevelView {
        match self {
            AccessLevel::Anonymous => AccessLevelView::Anonymous,
            AccessLevel::Basic(address) => AccessLevelView::Basic(address@),
            AccessLevel::Full => AccessLevelView::Full,
        }
    }
}

impl AccessLevel {
    /// Whether this level may act for `user`.
    pub open spec fn spec_is_authorized(self, user: Address) -> bool {
        match self {
            AccessLevel::Anonymous => false,
            AccessLevel::Basic(address) => address@ == user@,
            AccessLevel::Full => true,
        }
    }

    /// `Full` may act for anyone, `Basic(a)` for `a` alone, `Anonymous` for no one.
    pub fn is_authorized(&self, user: &Address) -> (res: bool)
        ensures
            res == self.spec_is_authorized(*user),
    {
        match self {
            AccessLevel::Anonymous => false,
            AccessLevel::Basic(address) => address.same(user),
            AccessLevel::Full => true,
        }
    }
}

} // verus!
