//! Poisoning support for the shared reader-writer lock.
//!
//! A lock is poisoned when a critical section under a write guard ends on a
//! failure path. Later acquisitions then report the poison, carrying the
//! still-valid guard so that a caller may inspect or repair the data and
//! clear the flag.

use vstd::prelude::*;

verus! {

/// The poison flag itself: set when a guarded critical section ended on a
/// failure path, cleared only on request.
#[derive(Debug, Clone, Copy, PartialEq, Eq, Structural)]
pub struct Flag {
    /// Whether a guarded critical section has ended on a failure path.
    pub failed: bool,
}

/// A receipt for one guarded critical section. It records whether the
/// holder was already on a failure path when the section began, so that
/// only a failure arising inside the section poisons the flag.
#[derive(Debug, Clone, Copy, PartialEq, Eq, Structural)]
pub struct Guard {
    /// Whether the holder was already failing when the section began.
    pub panicking: bool,
}

/// The error reported when a lock is poisoned. It carries the guard that
/// the acquisition produced, so the caller may recover it and proceed.
#[derive(Debug, Clone, Copy, PartialEq, Eq, Structural)]
pub struct PoisonError<T> {
    /// The guard the acquisition would have returned.
    pub guard: T,
}

/// The result of an acquisition that can fail only by poison; the error
/// still carries the guard.
pub type LockResult<G> = Result<G, PoisonError<G>>;

/// The errors of a non-blocking acquisition: poison, or contention.
#[derive(Debug, Clone, Copy, PartialEq, Eq, Structural)]
pub enum TryLockError<T> {
    /// The lock is poisoned; the guard is carried for recovery.
    Poisoned(PoisonError<T>),
    /// The lock is held incompatibly right now.
    WouldBlock,
}

/// The result of a non-blocking acquisition.
pub type TryLockResult<G> = Result<G, TryLockError<G>>;

impl Flag {
    /// An unpoisoned flag.
    pub fn new() -> (r: Self)
        ensures
            r == (Flag { failed: false }),
    {
        Flag { failed: false }
    }

    /// Checks the flag for an unguarded borrow, where only existing poison
    /// matters.
    pub fn borrow(&self) -> (r: LockResult<()>)
        ensures
            r == (if self.failed {
                Err::<(), PoisonError<()>>(PoisonError { guard: () })
            } else {
                Ok::<(), PoisonError<()>>(())
            }),
    {
        if self.failed {
            Err(PoisonError { guard: () })
        } else {
            Ok(())
        }
    }

    /// Checks the flag for a guarded borrow. `failing` says whether the
    /// caller is already on a failure path; the guard records it, so that
    /// `done` poisons the flag only for a failure that arose inside the
    /// section.
    pub fn guard(&self, failing: bool) -> (r: LockResult<Guard>)
        ensures
            r == (if self.failed {
                Err::<Guard, PoisonError<Guard>>(
                    PoisonError { guard: Guard { panicking: failing } },
                )
            } else {
                Ok::<Guard, PoisonError<Guard>>(Guard { panicking: failing })
            }),
    {
        let ret = Guard { panicking: failing };
        if self.failed {
            Err(PoisonError { guard: ret })
        } else {
            Ok(ret)
        }
    }

    /// Ends a guarded critical section. `failing` says whether the holder
    /// is on a failure path now; the flag becomes poisoned exactly when the
    /// failure arose inside the section.
    pub fn done(&mut self, guard: &Guard, failing: bool)
        ensures
            final(self).failed == (old(self).failed || (!guard.panicking && failing)),
    {
        if !guard.panicking && failing {
            self.failed = true;
        }
    }

    /// Whether the flag is poisoned.
    pub fn get(&self) -> (r: bool)
        ensures
            r == self.failed,
    {
        self.failed
    }

    /// Clears the poison.
    pub fn clear(&mut self)
        ensures
            *final(self) == (Flag { failed: false }),
    {
        self.failed = false;
    }
}

impl<T> PoisonError<T> {
    /// A poison error carrying the given guard.
    pub fn new(guard: T) -> (r: Self)
        ensures
            r == (PoisonError { guard }),
    {
        PoisonError { guard }
    }

    /// Consumes the error, returning the guard to allow access regardless.
    pub fn into_inner(self) -> (r: T)
        ensures
            r == self.guard,
    {
        self.guard
    }

    /// The carried guard, by reference.
    pub fn get_ref(&self) -> (r: &T)
        ensures
            *r == self.guard,
    {
        &self.guard
    }

    /// The carried guard, by mutable reference.
    pub fn get_mut(&mut self) -> (r: &mut T)
        ensures
            *r == old(self).guard,
            *final(self) == (PoisonError { guard: *final(r) }),
    {
        &mut self.guard
    }
}

impl<T> From<PoisonError<T>> for TryLockError<T> {
    fn from(err: PoisonError<T>) -> (r: Self)
        ensures
            r == TryLockError::Poisoned(err),
    {
        TryLockError::Poisoned(err)
    }
}

impl<T> vstd::std_specs::convert::FromSpecImpl<PoisonError<T>> for TryLockError<T> {
    open spec fn obeys_from_spec() -> bool {
        true
    }

    open spec fn from_spec(err: PoisonError<T>) -> Self {
        TryLockError::Poisoned(err)
    }
}

/// Applies a function to the guard inside either side of a lock result,
/// keeping which side it was.
pub fn map_result<T, U, F: FnOnce(T) -> U>(result: LockResult<T>, f: F) -> (r: LockResult<U>)
    requires
        match result {
            Ok(t) => call_requires(f, (t,)),
            Err(e) => call_requires(f, (e.guard,)),
        },
    ensures
        match result {
            Ok(t) => r is Ok && call_ensures(f, (t,), r->Ok_0),
            Err(e) => r is Err && call_ensures(f, (e.guard,), r->Err_0.guard),
        },
{
    match result {
        Ok(t) => Ok(f(t)),
        Err(e) => Err(PoisonError { guard: f(e.guard) }),
    }
}

} // verus!
