//! The connection accessors handler code calls on a request.
//!
//! Both accessors assume the middleware has attached a pool handle; a
//! request that never passed through the middleware is a wiring mistake and
//! is refused immediately with the distinct
//! [`AccessError::MiddlewareNotInstalled`] diagnostic, never answered with a
//! usable-looking connection. The pool (or the serializing lock, for the
//! single-connection variant) is the one the attached handle references;
//! the embedding, which owns both, passes it alongside the context.

use vstd::prelude::*;
use crate::errors::AccessError;
use crate::middleware::RequestContext;
use crate::pool::{can_acquire, spec_acquire, ConnectionPool, PoolError, PooledConnection};
use crate::serialized::{can_lock, lock_acquire, ExclusiveGuard, SerializedPool};

verus! {

/// Which access pattern a deployment gets, selected by the pool's
/// configured maximum size.
#[derive(Clone, Copy, Debug, PartialEq, Eq)]
pub enum AccessMode {
    /// Concurrent checkout from a multi-connection pool.
    Pooled,
    /// All access linearized through the lock over one shared connection.
    Serialized,
}

/// A maximum pool size of exactly one selects serialized semantics: the
/// "pool" is a single connection that must not be used concurrently. Any
/// larger or unspecified size selects direct pooled checkout.
pub fn select_access_mode(max_pool_size: Option<usize>) -> (m: AccessMode)
    ensures
        m is Serialized <==> max_pool_size == Some(1usize),
{
    match max_pool_size {
        Some(n) if n == 1 => AccessMode::Serialized,
        _ => AccessMode::Pooled,
    }
}

impl RequestContext {
    /// Check one connection out of the shared pool for this request.
    ///
    /// On a request without an attached handle this refuses immediately
    /// with the misuse diagnostic and touches nothing. Otherwise it behaves
    /// as one pool checkout: it succeeds exactly when the pool is below
    /// capacity, and a pool at capacity answers
    /// [`AccessError::PoolExhausted`] and is left unchanged — the caller
    /// retries or surfaces the error; no retry happens here.
    pub fn acquire_connection(&self, pool: &mut ConnectionPool) -> (r: Result<
        PooledConnection,
        AccessError,
    >)
        requires
            old(pool)@.wf(),
            self@ matches Some(h) ==> h == old(pool)@.id,
        ensures
            final(pool)@.wf(),
            final(pool)@.id == old(pool)@.id,
            final(pool)@.max_size == old(pool)@.max_size,
            self@ is None <==> r == Err::<PooledConnection, AccessError>(
                AccessError::MiddlewareNotInstalled,
            ),
            self@ is None ==> final(pool)@ == old(pool)@,
            r is Ok <==> self@ is Some && can_acquire(old(pool)@),
            r matches Ok(c) ==> final(pool)@ == spec_acquire(old(pool)@) && c@ == old(pool)@.id,
            self@ is Some && !can_acquire(old(pool)@) ==> r == Err::<
                PooledConnection,
                AccessError,
            >(AccessError::PoolExhausted) && final(pool)@ == old(pool)@,
    {
        match self.acquire_shared_pool() {
            Err(_) => Err(AccessError::MiddlewareNotInstalled),
            Ok(_handle) => match pool.acquire() {
                Ok(c) => Ok(c),
                Err(PoolError::Exhausted) => Err(AccessError::PoolExhausted),
            },
        }
    }

    /// One attempt to take exclusive access to the single shared connection
    /// of the serialized variant.
    ///
    /// On a request without an attached handle this refuses immediately
    /// with the misuse diagnostic. Otherwise `Ok(Some(guard))` grants
    /// exclusive access and is given exactly when no other caller holds the
    /// guard; `Ok(None)` reports that the guard is held, with nothing
    /// changed, and the embedding parks the calling task and retries after
    /// the next release.
    pub fn acquire_exclusive_connection(&self, lock: &mut SerializedPool) -> (r: Result<
        Option<ExclusiveGuard>,
        AccessError,
    >)
        requires
            self@ matches Some(h) ==> h == old(lock)@.id,
        ensures
            final(lock)@.id == old(lock)@.id,
            self@ is None <==> r == Err::<Option<ExclusiveGuard>, AccessError>(
                AccessError::MiddlewareNotInstalled,
            ),
            self@ is None ==> final(lock)@ == old(lock)@,
            r is Ok <==> self@ is Some,
            r matches Ok(o) ==> (o is Some <==> can_lock(old(lock)@)),
            r matches Ok(Some(g)) ==> g@ == old(lock)@.id && lock_acquire(
                old(lock)@,
                final(lock)@,
            ),
            r matches Ok(None) ==> final(lock)@ == old(lock)@,
    {
        match self.acquire_shared_pool() {
            Err(_) => Err(AccessError::MiddlewareNotInstalled),
            Ok(_handle) => Ok(lock.try_lock()),
        }
    }
}

} // verus!
