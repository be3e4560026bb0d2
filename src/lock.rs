//! A single-owner exclusion primitive.
//!
//! On a single core a lock that is already held can only be contended by an
//! interrupt handler that re-enters a section of the context it interrupted.
//! Spinning would deadlock, so the cell refuses a second acquisition instead:
//! `try_lock` reports it, and `lock` may only be called on a free cell.
//!
//! While a guard is live the value lives in the guard; releasing the guard
//! hands the value back to its cell.

use vstd::prelude::*;

verus! {

/// Why an acquisition was refused.
#[derive(Clone, Copy, Debug, PartialEq, Eq, Structural)]
pub enum LockError {
    /// A guard of this cell is still live.
    AlreadyHeld,
}

/// A value behind a binary free/held flag.
pub struct SpinLock<T> {
    data: Option<T>,
}

/// Exclusive access to the value of a `SpinLock` for as long as it lives.
pub struct SpinLockGuard<T> {
    data: T,
}

impl<T> SpinLock<T> {
    /// The cell's state: `None` while a guard holds the value, else the value.
    pub closed spec fn view(&self) -> Option<T> {
        self.data
    }

    /// Whether a guard of this cell is live.
    pub open spec fn held(&self) -> bool {
        self@ is None
    }

    /// A free cell holding `inner`.
    pub fn new(inner: T) -> (r: Self)
        ensures
            r@ == Some(inner),
    {
        SpinLock { data: Some(inner) }
    }

    /// Whether a guard of this cell is live.
    pub fn is_locked(&self) -> (r: bool)
        ensures
            r == self.held(),
    {
        self.data.is_none()
    }

    /// Acquires the cell, or reports that it is already held.
    pub fn try_lock(&mut self) -> (r: Result<SpinLockGuard<T>, LockError>)
        ensures
            r is Ok <==> !old(self).held(),
            r is Ok ==> final(self).held() && Some(r->Ok_0@) == old(self)@,
            r is Err ==> r->Err_0 == LockError::AlreadyHeld && *final(self) == *old(self),
    {
        match self.data.take() {
            Some(v) => Ok(SpinLockGuard::new(v)),
            None => Err(LockError::AlreadyHeld),
        }
    }

    /// Acquires a free cell. Acquiring a held cell is a reentrancy defect of
    /// the caller, so it is ruled out here rather than waited on.
    pub fn lock(&mut self) -> (r: SpinLockGuard<T>)
        requires
            !old(self).held(),
        ensures
            final(self).held(),
            Some(r@) == old(self)@,
    {
        SpinLockGuard::new(self.data.take().unwrap())
    }

    /// Releases the cell, storing the guard's value in it.
    pub fn unlock(&mut self, guard: SpinLockGuard<T>)
        requires
            old(self).held(),
        ensures
            final(self)@ == Some(guard@),
    {
        self.data = Some(guard.data);
    }
}

impl<T> SpinLockGuard<T> {
    /// The guarded value.
    pub closed spec fn view(&self) -> T {
        self.data
    }

    /// A guard over `data`.
    pub fn new(data: T) -> (r: Self)
        ensures
            r@ == data,
    {
        SpinLockGuard { data }
    }

    /// Shared access to the guarded value.
    pub fn get(&self) -> (r: &T)
        ensures
            *r == self@,
    {
        &self.data
    }

    /// Exclusive access to the guarded value.
    pub fn get_mut(&mut self) -> (r: &mut T)
        ensures
            *r == old(self)@,
            final(self)@ == *final(r),
    {
        &mut self.data
    }

    /// Replaces the guarded value.
    pub fn set(&mut self, value: T)
        ensures
            final(self)@ == value,
    {
        self.data = value;
    }
}

/// The cell after one session on it: acquire, optionally write, release.
/// `None` stands for a held cell, on which the session cannot start.
pub open spec fn after_session<T>(cell: Option<T>, write: Option<T>) -> Option<T> {
    match cell {
        Some(v) => Some(
            match write {
                Some(w) => w,
                None => v,
            },
        ),
        None => None,
    }
}

/// The cell after a run of sessions, one after the other.
pub open spec fn after_sessions<T>(cell: Option<T>, writes: Seq<Option<T>>) -> Option<T>
    decreases writes.len(),
{
    if writes.len() == 0 {
        cell
    } else {
        after_session(after_sessions(cell, writes.drop_last()), writes.last())
    }
}

/// The value written last in `writes`, or `init` where nothing was written.
pub open spec fn last_written<T>(init: T, writes: Seq<Option<T>>) -> T
    decreases writes.len(),
{
    if writes.len() == 0 {
        init
    } else {
        match writes.last() {
            Some(w) => w,
            None => last_written(init, writes.drop_last()),
        }
    }
}

/// Sessions that never nest, on a cell that starts free: every acquisition
/// finds the cell free, and the cell then holds exactly the value that the
/// last writing session stored (its first value where none wrote).
pub proof fn lemma_sequential_sessions<T>(init: T, writes: Seq<Option<T>>)
    ensures
        forall|i: int|
            0 <= i <= writes.len() ==> #[trigger] after_sessions(Some(init), writes.take(i))
                is Some,
        after_sessions(Some(init), writes) == Some(last_written(init, writes)),
{
    assert forall|i: int| 0 <= i <= writes.len() implies #[trigger] after_sessions(
        Some(init),
        writes.take(i),
    ) is Some by {
        lemma_prefix_free(init, writes.take(i));
    }
    lemma_prefix_free(init, writes);
}

proof fn lemma_prefix_free<T>(init: T, writes: Seq<Option<T>>)
    ensures
        after_sessions(Some(init), writes) == Some(last_written(init, writes)),
    decreases writes.len(),
{
    if writes.len() > 0 {
        lemma_prefix_free(init, writes.drop_last());
    }
}

} // verus!
