//! The serialized single-connection variant.
//!
//! When the pool is configured with a maximum size of one, the "pool" is a
//! single connection shared by the whole process, and access to it is
//! linearized by a mutual-exclusion lock instead of concurrent checkout.
//! This module verifies the lock discipline: a guard exists only while the
//! lock is held, at most one guard exists at a time, and consuming the guard
//! is the only way the lock returns to the available state.

use vstd::prelude::*;

verus! {

/// Mathematical model of the serializing lock: which pool's single
/// connection it guards, and whether a guard is currently held.
pub ghost struct LockModel {
    /// Identity of the pool whose one connection the lock guards.
    pub id: int,
    /// Whether some caller currently holds the exclusive guard.
    pub locked: bool,
}

/// An acquisition attempt can succeed exactly when no guard is held.
pub open spec fn can_lock(l: LockModel) -> bool {
    !l.locked
}

/// A successful acquisition: only possible from the available state, and it
/// leaves the lock held.
pub open spec fn lock_acquire(pre: LockModel, post: LockModel) -> bool {
    &&& !pre.locked
    &&& post == LockModel { locked: true, ..pre }
}

/// Effect of consuming the guard: the lock returns to the available state.
pub open spec fn spec_unlock(l: LockModel) -> LockModel {
    LockModel { locked: false, ..l }
}

/// Everything the lock can do in one step: a successful acquisition, a
/// release of the held guard, or no change (which covers an acquisition
/// attempt that found the lock held and went back to waiting).
pub open spec fn lock_step(pre: LockModel, post: LockModel) -> bool {
    ||| lock_acquire(pre, post)
    ||| pre.locked && post == spec_unlock(pre)
    ||| post == pre
}

/// The guard granting exclusive access to the single shared connection.
///
/// Only [`SerializedPool::try_lock`] creates one, and releasing the lock
/// consumes it, so no caller can hold on to access after release and no
/// guard can release the lock twice.
#[derive(Debug)]
pub struct ExclusiveGuard {
    pool_id: u64,
}

impl View for ExclusiveGuard {
    type V = int;

    /// A guard is modelled by the identity of the pool it grants access to.
    closed spec fn view(&self) -> int {
        self.pool_id as int
    }
}

impl ExclusiveGuard {
    /// Identity of the pool whose connection this guard gives access to.
    pub fn pool_id(&self) -> (r: u64)
        ensures
            r as int == self@,
    {
        self.pool_id
    }
}

/// The serializing lock around the single shared connection of a pool of
/// maximum size one.
pub struct SerializedPool {
    id: u64,
    locked: bool,
}

impl View for SerializedPool {
    type V = LockModel;

    closed spec fn view(&self) -> LockModel {
        LockModel { id: self.id as int, locked: self.locked }
    }
}

impl SerializedPool {
    /// The lock over the single connection of the pool named `id`, initially
    /// available.
    pub fn new(id: u64) -> (s: SerializedPool)
        ensures
            s@.id == id,
            !s@.locked,
    {
        SerializedPool { id, locked: false }
    }

    /// Whether some caller currently holds the guard.
    pub fn is_locked(&self) -> (b: bool)
        ensures
            b == self@.locked,
    {
        self.locked
    }

    /// One acquisition attempt. If the lock is available the caller receives
    /// the guard and the lock becomes held; if a guard is already out the
    /// attempt returns nothing and changes nothing, and the caller parks
    /// until a release. The embedding turns the parking into cooperative
    /// blocking of the calling task alone.
    pub fn try_lock(&mut self) -> (r: Option<ExclusiveGuard>)
        ensures
            lock_step(old(self)@, final(self)@),
            final(self)@.id == old(self)@.id,
            r is Some <==> can_lock(old(self)@),
            r matches Some(g) ==> g@ == old(self)@.id && lock_acquire(old(self)@, final(self)@),
            r is None ==> final(self)@ == old(self)@,
    {
        if self.locked {
            None
        } else {
            self.locked = true;
            Some(ExclusiveGuard { pool_id: self.id })
        }
    }

    /// Release the lock by consuming the guard. This is the only path by
    /// which the lock returns to the available state; the embedding calls it
    /// from the guard's destructor, so the release happens on every exit
    /// path, normal completion and error abort alike.
    pub fn unlock(&mut self, guard: ExclusiveGuard)
        requires
            old(self)@.locked,
            guard@ == old(self)@.id,
        ensures
            final(self)@ == spec_unlock(old(self)@),
            lock_step(old(self)@, final(self)@),
    {
        let _ = guard;
        self.locked = false;
    }
}

/// Serialized exclusivity: while one acquisition holds the guard, a second
/// acquisition attempt cannot succeed, so two callers never hold the guard
/// at the same time; and once the first guard is released, an attempt can
/// succeed again — the second caller's resumption happens only after the
/// first release.
pub proof fn lemma_serialized_exclusivity(s0: LockModel, s1: LockModel)
    requires
        lock_acquire(s0, s1),
    ensures
        !can_lock(s1),
        can_lock(spec_unlock(s1)),
{
}

/// The guard's release is the only step that returns the lock to the
/// available state: any step that starts with the guard held and ends with
/// the lock available is the release.
pub proof fn lemma_release_only_path(pre: LockModel, post: LockModel)
    requires
        lock_step(pre, post),
        pre.locked,
        !post.locked,
    ensures
        post == spec_unlock(pre),
{
}

} // verus!
