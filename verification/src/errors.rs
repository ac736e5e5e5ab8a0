//! Errors surfaced to handler code by the connection accessors.

use vstd::prelude::*;

verus! {

/// Why a connection accessor could not hand out a connection.
#[derive(Clone, Copy, Debug, PartialEq, Eq)]
pub enum AccessError {
    /// The request never passed through the pool middleware, so no pool
    /// handle is attached to its context. This is a wiring mistake of the
    /// deployment, not a runtime condition to recover from.
    MiddlewareNotInstalled,
    /// The pool refused the checkout because every connection is already
    /// checked out. Recoverable by the handler: retry, back off, or answer
    /// service-unavailable.
    PoolExhausted,
}

impl AccessError {
    /// A diagnostic for the operator. The two variants are kept clearly
    /// distinct, so a missing middleware is never mistaken for a pool that
    /// is merely busy.
    pub fn message(&self) -> (r: &'static str)
        ensures
            self is MiddlewareNotInstalled ==> r@ == "the pool middleware is not installed for this request"@,
            self is PoolExhausted ==> r@ == "no connection is available: the pool is exhausted"@,
    {
        match self {
            AccessError::MiddlewareNotInstalled => "the pool middleware is not installed for this request",
            AccessError::PoolExhausted => "no connection is available: the pool is exhausted",
        }
    }
}

} // verus!
