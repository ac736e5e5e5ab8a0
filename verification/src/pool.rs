//! Checkout accounting for the bounded connection pool.
//!
//! The pool's physical connections live in the embedding; this module tracks
//! what the core logic depends on: the pool's identity, its maximum size, and
//! how many connections are currently checked out.

use vstd::prelude::*;

verus! {

/// Mathematical model of a bounded connection pool: its identity, its
/// capacity, and the number of connections currently checked out.
pub ghost struct PoolModel {
    /// Identity of the pool, distinguishing it from other pools in the
    /// same process.
    pub id: int,
    /// Maximum number of connections the pool may hand out at once.
    pub max_size: int,
    /// Number of connections currently checked out by callers.
    pub checked_out: int,
}

impl PoolModel {
    /// A pool is well formed when it holds at least one connection slot and
    /// never has more connections checked out than its capacity.
    pub open spec fn wf(self) -> bool {
        &&& 1 <= self.max_size
        &&& 0 <= self.checked_out <= self.max_size
    }
}

/// A checkout can proceed exactly when the pool is below capacity.
pub open spec fn can_acquire(p: PoolModel) -> bool {
    p.checked_out < p.max_size
}

/// Effect of a successful checkout on the pool.
pub open spec fn spec_acquire(p: PoolModel) -> PoolModel {
    PoolModel { checked_out: p.checked_out + 1, ..p }
}

/// Effect of returning one connection to the pool.
pub open spec fn spec_release(p: PoolModel) -> PoolModel {
    PoolModel { checked_out: p.checked_out - 1, ..p }
}

/// An error raised by a checkout attempt.
#[derive(Clone, Copy, Debug, PartialEq, Eq)]
pub enum PoolError {
    /// Every connection is already checked out and the pool's policy is to
    /// refuse rather than create an extra connection.
    Exhausted,
}

/// One checked-out connection, owned by the caller until it is returned.
///
/// Only [`ConnectionPool::acquire`] creates values of this type, and
/// returning one to its pool consumes it, so a connection cannot be
/// returned twice.
#[derive(Debug)]
pub struct PooledConnection {
    pool_id: u64,
}

impl View for PooledConnection {
    type V = int;

    /// A connection is modelled by the identity of the pool it came from.
    closed spec fn view(&self) -> int {
        self.pool_id as int
    }
}

impl PooledConnection {
    /// Identity of the pool this connection belongs to.
    pub fn pool_id(&self) -> (r: u64)
        ensures
            r as int == self@,
    {
        self.pool_id
    }
}

/// The checkout ledger of a bounded set of reusable database connections.
pub struct ConnectionPool {
    id: u64,
    max_size: usize,
    checked_out: usize,
}

impl View for ConnectionPool {
    type V = PoolModel;

    closed spec fn view(&self) -> PoolModel {
        PoolModel {
            id: self.id as int,
            max_size: self.max_size as int,
            checked_out: self.checked_out as int,
        }
    }
}

impl ConnectionPool {
    /// Create the ledger for a pool of `max_size` connections, none of them
    /// checked out yet. `id` names the pool; an embedding that runs several
    /// pools gives each a distinct one.
    pub fn new(id: u64, max_size: usize) -> (p: ConnectionPool)
        requires
            1 <= max_size,
        ensures
            p@.wf(),
            p@.id == id,
            p@.max_size == max_size,
            p@.checked_out == 0,
    {
        ConnectionPool { id, max_size, checked_out: 0 }
    }

    /// Identity of this pool.
    pub fn id(&self) -> (r: u64)
        ensures
            r as int == self@.id,
    {
        self.id
    }

    /// The pool's configured capacity.
    pub fn max_size(&self) -> (r: usize)
        ensures
            r as int == self@.max_size,
    {
        self.max_size
    }

    /// How many connections are checked out right now.
    pub fn checked_out(&self) -> (r: usize)
        ensures
            r as int == self@.checked_out,
    {
        self.checked_out
    }

    /// Check one connection out of the pool. Succeeds exactly when the pool
    /// is below capacity; a pool at capacity refuses with
    /// [`PoolError::Exhausted`] and is left unchanged, never creating an
    /// extra connection.
    pub fn acquire(&mut self) -> (r: Result<PooledConnection, PoolError>)
        requires
            old(self)@.wf(),
        ensures
            final(self)@.wf(),
            pool_step(old(self)@, final(self)@),
            final(self)@.id == old(self)@.id,
            final(self)@.max_size == old(self)@.max_size,
            r is Ok <==> can_acquire(old(self)@),
            r matches Ok(c) ==> final(self)@ == spec_acquire(old(self)@) && c@ == old(self)@.id,
            r is Err ==> final(self)@ == old(self)@ && r == Err::<PooledConnection, PoolError>(
                PoolError::Exhausted,
            ),
    {
        if self.checked_out < self.max_size {
            self.checked_out = self.checked_out + 1;
            Ok(PooledConnection { pool_id: self.id })
        } else {
            Err(PoolError::Exhausted)
        }
    }

    /// Return a connection to its pool. Consuming the connection here is the
    /// only way its checkout ends, so a release happens exactly once per
    /// checkout, on every exit path of the caller.
    pub fn release(&mut self, conn: PooledConnection)
        requires
            old(self)@.wf(),
            conn@ == old(self)@.id,
            1 <= old(self)@.checked_out,
        ensures
            final(self)@ == spec_release(old(self)@),
            pool_step(old(self)@, final(self)@),
            final(self)@.wf(),
    {
        let _ = conn;
        self.checked_out = self.checked_out - 1;
    }
}

/// Everything the pool can do in one step: a successful checkout, a return
/// of one checked-out connection, or no change (which covers a checkout
/// attempt refused at capacity).
pub open spec fn pool_step(pre: PoolModel, post: PoolModel) -> bool {
    ||| can_acquire(pre) && post == spec_acquire(pre)
    ||| 1 <= pre.checked_out && post == spec_release(pre)
    ||| post == pre
}

/// Along any run of checkouts, returns and refused attempts — any
/// interleaving of concurrent requests serializes into such a run — a pool
/// that starts well formed stays well formed: the number of connections out
/// never exceeds the capacity, and the capacity and identity of the pool
/// never change.
pub proof fn lemma_pool_run_invariant(trace: Seq<PoolModel>)
    requires
        1 <= trace.len(),
        trace[0].wf(),
        forall|i: int| 0 <= i < trace.len() - 1 ==> pool_step(#[trigger] trace[i], trace[i + 1]),
    ensures
        forall|i: int| 0 <= i < trace.len() ==> (#[trigger] trace[i]).wf(),
        forall|i: int| 0 <= i < trace.len() ==> (#[trigger] trace[i]).max_size == trace[0].max_size,
        forall|i: int| 0 <= i < trace.len() ==> (#[trigger] trace[i]).id == trace[0].id,
    decreases trace.len(),
{
    if trace.len() > 1 {
        let prefix = trace.drop_last();
        assert(forall|i: int| 0 <= i < prefix.len() ==> prefix[i] == trace[i]);
        lemma_pool_run_invariant(prefix);
        let n = trace.len() - 1;
        assert(pool_step(trace[n - 1], trace[n]));
    }
}

/// The pool after `n` successive successful checkouts.
pub open spec fn acquire_n(p: PoolModel, n: nat) -> PoolModel
    decreases n,
{
    if n == 0 {
        p
    } else {
        spec_acquire(acquire_n(p, (n - 1) as nat))
    }
}

/// Capacity is respected: from a pool with room for `n` more checkouts,
/// `n` checkouts in a row all succeed, and they leave the pool with exactly
/// `n` more connections out, the capacity unchanged. If those checkouts
/// fill the pool exactly, one further checkout is refused rather than a
/// connection beyond capacity being created.
pub proof fn lemma_capacity_respected(p: PoolModel, n: nat)
    requires
        p.wf(),
        p.checked_out + n <= p.max_size,
    ensures
        forall|k: nat| k < n ==> can_acquire(#[trigger] acquire_n(p, k)),
        acquire_n(p, n).checked_out == p.checked_out + n,
        acquire_n(p, n).max_size == p.max_size,
        acquire_n(p, n).id == p.id,
        acquire_n(p, n).wf(),
        p.checked_out + n == p.max_size ==> !can_acquire(acquire_n(p, n)),
    decreases n,
{
    if n > 0 {
        let m = (n - 1) as nat;
        lemma_capacity_respected(p, m);
        assert forall|k: nat| k < n implies can_acquire(#[trigger] acquire_n(p, k)) by {
            if k == m {
                assert(acquire_n(p, m).checked_out == p.checked_out + m);
            }
        }
    }
}

/// A release reopens the pool: once a pool at capacity sees one connection
/// returned, a further checkout succeeds again, and taking it brings the
/// pool back to the same occupancy. For a pool of size one this is the
/// guarantee that a connection dropped partway through a handler, error or
/// not, leaves the pool usable by the next caller.
pub proof fn lemma_release_reopens(p: PoolModel)
    requires
        p.wf(),
        !can_acquire(p),
    ensures
        spec_release(p).wf(),
        can_acquire(spec_release(p)),
        spec_acquire(spec_release(p)) == p,
{
}

} // verus!
