//! The middleware's attachment step and the per-request context it works on.
//!
//! The host pipeline owns the request and its type-keyed storage; what the
//! core logic reads of that storage is the one slot this middleware uses,
//! modelled here as [`RequestContext`]. The embedding calls
//! [`PoolMiddleware::handle`] on each request before handler code runs, and
//! then continues to the next stage of the pipeline; the middleware never
//! inspects or alters the response.

use vstd::prelude::*;
use crate::errors::AccessError;
use crate::pool::ConnectionPool;

verus! {

/// A shared, reference-counted handle to the pool, attached to a request's
/// context. The model reduces it to the identity of the pool it references:
/// cloning the underlying shared pointer never changes which pool a request
/// reaches.
#[derive(Clone, Copy, Debug)]
pub struct SharedPoolHandle {
    pool_id: u64,
}

impl View for SharedPoolHandle {
    type V = int;

    closed spec fn view(&self) -> int {
        self.pool_id as int
    }
}

impl SharedPoolHandle {
    /// Identity of the pool this handle references.
    pub fn pool_id(&self) -> (r: u64)
        ensures
            r as int == self@,
    {
        self.pool_id
    }
}

/// The per-request storage slot the host pipeline provides, reduced to the
/// one entry this middleware uses: the attached pool handle, if any.
pub struct RequestContext {
    slot: Option<SharedPoolHandle>,
}

impl View for RequestContext {
    type V = Option<int>;

    closed spec fn view(&self) -> Option<int> {
        match self.slot {
            Some(h) => Some(h@),
            None => None,
        }
    }
}

impl RequestContext {
    /// The context of a request that has not passed through any middleware
    /// yet: no handle attached.
    pub fn new() -> (c: RequestContext)
        ensures
            c@ is None,
    {
        RequestContext { slot: None }
    }

    /// Whether a pool handle is attached.
    pub fn has_handle(&self) -> (b: bool)
        ensures
            b <==> self@ is Some,
    {
        self.slot.is_some()
    }

    /// Hand out the attached shared pool handle itself, for callers that
    /// perform their own checkout logic or pass the pool reference onward.
    /// Never fails once the middleware has run; on a request that never
    /// passed through it, fails immediately with the distinct
    /// misuse diagnostic instead of handing out anything usable-looking.
    pub fn acquire_shared_pool(&self) -> (r: Result<&SharedPoolHandle, AccessError>)
        ensures
            r is Ok <==> self@ is Some,
            r matches Ok(h) ==> Some(h@) == self@,
            r is Err ==> r == Err::<&SharedPoolHandle, AccessError>(
                AccessError::MiddlewareNotInstalled,
            ),
    {
        match self.slot.as_ref() {
            Some(h) => Ok(h),
            None => Err(AccessError::MiddlewareNotInstalled),
        }
    }
}

/// What one pass of the middleware's attachment step does to a request
/// context: an already-attached handle is kept untouched, an absent one is
/// filled with a handle to the middleware's own pool.
pub open spec fn attach_step(middleware_pool: int, ctx: Option<int>) -> Option<int> {
    match ctx {
        Some(h) => Some(h),
        None => Some(middleware_pool),
    }
}

/// The middleware: wraps the shared pool and guarantees that a handle to it
/// is attached to every request that passes through.
#[derive(Clone, Copy, Debug)]
pub struct PoolMiddleware {
    pool_id: u64,
}

impl View for PoolMiddleware {
    type V = int;

    closed spec fn view(&self) -> int {
        self.pool_id as int
    }
}

impl PoolMiddleware {
    /// Build the middleware over a pool constructed or mocked elsewhere.
    /// Never fails.
    pub fn from_pool(pool: &ConnectionPool) -> (m: PoolMiddleware)
        ensures
            m@ == pool@.id,
    {
        PoolMiddleware { pool_id: pool.id() }
    }

    /// The attachment step of the middleware's per-request entry point. If a
    /// handle is already attached — for instance by an outer instance of the
    /// same middleware in a nested pipeline — the context is left exactly as
    /// it was; otherwise a handle referencing this middleware's pool is
    /// attached. Either way, control continues to the next stage with a
    /// handle in place.
    pub fn handle(&self, ctx: &mut RequestContext)
        ensures
            final(ctx)@ == attach_step(self@, old(ctx)@),
            final(ctx)@ is Some,
            old(ctx)@ is Some ==> final(ctx)@ == old(ctx)@,
            old(ctx)@ is None ==> final(ctx)@ == Some(self@),
    {
        if ctx.slot.is_none() {
            ctx.slot = Some(SharedPoolHandle { pool_id: self.pool_id });
        }
    }
}

/// Idempotent attachment: after one pass of the attachment step a handle is
/// present, and any later pass — through the same middleware instance or any
/// other — detects it and leaves the context exactly as the first pass left
/// it. The handle is therefore attached exactly once per request.
pub proof fn lemma_attach_idempotent(first: int, second: int, ctx: Option<int>)
    ensures
        attach_step(first, ctx) is Some,
        attach_step(second, attach_step(first, ctx)) == attach_step(first, ctx),
{
}

} // verus!
