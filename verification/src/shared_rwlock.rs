//! A poison-aware reader-writer lock over a shared typed region, modeled
//! as an explicit lock-state machine.
//!
//! The lock state (reader count, writer flag, poison flag) stands for the
//! words at the head of the shared region; the payload stands for the
//! record array behind them. Acquisitions and releases are explicit
//! transitions whose contracts state the locking discipline: a write is
//! granted only when nothing else holds the lock, reads are granted only
//! while no writer holds it, and the payload is reachable only under a live
//! guard. A critical section that ends on a failure path poisons the lock;
//! later acquisitions report the poison, carrying their guard for
//! recovery, until it is cleared.

use crate::poison::{Flag, Guard, LockResult, PoisonError, TryLockError, TryLockResult};
use vstd::prelude::*;

verus! {

/// A receipt for one granted shared (read) access.
#[derive(Debug)]
pub struct RwLockReadGuard {
    _token: (),
}

/// A receipt for one granted exclusive (write) access, carrying its poison
/// guard.
#[derive(Debug)]
pub struct RwLockWriteGuard {
    /// The poison receipt taken when the access was granted.
    pub poison: Guard,
}

/// The lock and the region it guards.
pub struct SharedRwLock<T> {
    /// How many shared accesses are outstanding.
    pub readers: usize,
    /// Whether an exclusive access is outstanding.
    pub writer: bool,
    /// The poison flag.
    pub poison: Flag,
    /// The guarded records.
    pub data: Vec<T>,
}

impl<T> View for SharedRwLock<T> {
    type V = Seq<T>;

    open spec fn view(&self) -> Seq<T> {
        self.data@
    }
}

impl<T> SharedRwLock<T> {
    /// Well-formedness: an exclusive access excludes every shared one.
    pub open spec fn wf(self) -> bool {
        self.writer ==> self.readers == 0
    }

    /// A fresh unlocked, unpoisoned lock over the given records.
    pub fn new(data: Vec<T>) -> (r: Self)
        ensures
            r@ == data@,
            r.readers == 0,
            !r.writer,
            !r.poison.failed,
            r.wf(),
    {
        SharedRwLock { readers: 0, writer: false, poison: Flag::new(), data }
    }

    /// How many records the region holds.
    pub fn len(&self) -> (r: usize)
        ensures
            r == self@.len(),
    {
        self.data.len()
    }

    /// Acquires shared access, blocking until no writer holds the lock; in
    /// this in-process model the caller must not hold the write itself, as
    /// waiting for it would never end. The access is granted either way;
    /// a poisoned lock reports the error, with the guard carried inside.
    pub fn read(&mut self) -> (r: LockResult<RwLockReadGuard>)
        requires
            !old(self).writer,
            old(self).readers < usize::MAX,
        ensures
            final(self).readers == old(self).readers + 1,
            !final(self).writer,
            final(self).poison == old(self).poison,
            final(self)@ == old(self)@,
            final(self).wf(),
            r is Ok <==> !old(self).poison.failed,
    {
        self.readers = self.readers + 1;
        match self.poison.borrow() {
            Ok(()) => Ok(RwLockReadGuard { _token: () }),
            Err(_) => Err(PoisonError { guard: RwLockReadGuard { _token: () } }),
        }
    }

    /// Attempts shared access without blocking: contention with a writer
    /// reports `WouldBlock` and changes nothing; otherwise the access is
    /// granted, with poison reported as in `read`.
    pub fn try_read(&mut self) -> (r: TryLockResult<RwLockReadGuard>)
        requires
            old(self).readers < usize::MAX,
        ensures
            old(self).writer ==> r == Err::<RwLockReadGuard, TryLockError<RwLockReadGuard>>(
                TryLockError::WouldBlock,
            ) && *final(self) == *old(self),
            !old(self).writer ==> final(self).readers == old(self).readers + 1
                && !final(self).writer && final(self).poison == old(self).poison
                && final(self)@ == old(self)@ && (r is Ok <==> !old(self).poison.failed) && (
            r is Err ==> r->Err_0 is Poisoned),
            final(self).wf() == old(self).wf(),
    {
        if self.writer {
            Err(TryLockError::WouldBlock)
        } else {
            self.readers = self.readers + 1;
            match self.poison.borrow() {
                Ok(()) => Ok(RwLockReadGuard { _token: () }),
                Err(_) => Err(
                    TryLockError::Poisoned(PoisonError { guard: RwLockReadGuard { _token: () } }),
                ),
            }
        }
    }

    /// Acquires exclusive access, blocking until nothing holds the lock; in
    /// this in-process model the caller must hold nothing itself. The
    /// access is granted either way; a poisoned lock reports the error,
    /// with the guard carried inside.
    pub fn write(&mut self) -> (r: LockResult<RwLockWriteGuard>)
        requires
            !old(self).writer,
            old(self).readers == 0,
        ensures
            final(self).writer,
            final(self).readers == 0,
            final(self).poison == old(self).poison,
            final(self)@ == old(self)@,
            final(self).wf(),
            r is Ok <==> !old(self).poison.failed,
            r is Err ==> r->Err_0 == (PoisonError {
                guard: RwLockWriteGuard { poison: Guard { panicking: false } },
            }),
    {
        self.writer = true;
        match self.poison.guard(false) {
            Ok(guard) => Ok(RwLockWriteGuard { poison: guard }),
            Err(e) => Err(PoisonError { guard: RwLockWriteGuard { poison: e.guard } }),
        }
    }

    /// Attempts exclusive access without blocking: any outstanding access
    /// reports `WouldBlock` and changes nothing; otherwise the access is
    /// granted, with poison reported as in `write`.
    pub fn try_write(&mut self) -> (r: TryLockResult<RwLockWriteGuard>)
        ensures
            (old(self).writer || old(self).readers > 0) ==> r == Err::<
                RwLockWriteGuard,
                TryLockError<RwLockWriteGuard>,
            >(TryLockError::WouldBlock) && *final(self) == *old(self),
            !(old(self).writer || old(self).readers > 0) ==> final(self).writer
                && final(self).readers == 0 && final(self).poison == old(self).poison
                && final(self)@ == old(self)@
                && (r is Ok <==> !old(self).poison.failed) && (r is Err ==> r->Err_0
                == TryLockError::Poisoned(
                PoisonError { guard: RwLockWriteGuard { poison: Guard { panicking: false } } },
            )),
            old(self).wf() ==> final(self).wf(),
    {
        if self.writer || self.readers > 0 {
            Err(TryLockError::WouldBlock)
        } else {
            self.writer = true;
            match self.poison.guard(false) {
                Ok(guard) => Ok(RwLockWriteGuard { poison: guard }),
                Err(e) => Err(
                    TryLockError::Poisoned(
                        PoisonError { guard: RwLockWriteGuard { poison: e.guard } },
                    ),
                ),
            }
        }
    }

    /// Releases one shared access.
    pub fn drop_read(&mut self, guard: RwLockReadGuard)
        requires
            old(self).readers > 0,
        ensures
            final(self).readers == old(self).readers - 1,
            final(self).writer == old(self).writer,
            final(self).poison == old(self).poison,
            final(self)@ == old(self)@,
            old(self).wf() ==> final(self).wf(),
    {
        let RwLockReadGuard { _token: () } = guard;
        self.readers = self.readers - 1;
    }

    /// Releases the exclusive access. `failing` says whether the critical
    /// section is ending on a failure path; exactly then (and when the
    /// failure arose inside the section) the lock becomes poisoned.
    pub fn drop_write(&mut self, guard: RwLockWriteGuard, failing: bool)
        requires
            old(self).writer,
        ensures
            !final(self).writer,
            final(self).readers == old(self).readers,
            final(self)@ == old(self)@,
            final(self).poison.failed == (old(self).poison.failed || (!guard.poison.panicking
                && failing)),
            old(self).wf() ==> final(self).wf(),
    {
        self.poison.done(&guard.poison, failing);
        self.writer = false;
    }

    /// Atomically converts the exclusive access into a shared one: no
    /// other writer can observe the data between the two states, and the
    /// data is unchanged.
    pub fn downgrade(&mut self, guard: RwLockWriteGuard) -> (r: RwLockReadGuard)
        requires
            old(self).writer,
            old(self).wf(),
        ensures
            !final(self).writer,
            final(self).readers == 1,
            final(self).poison == old(self).poison,
            final(self)@ == old(self)@,
            final(self).wf(),
    {
        let RwLockWriteGuard { poison: _ } = guard;
        self.writer = false;
        self.readers = 1;
        RwLockReadGuard { _token: () }
    }

    /// Whether the lock is poisoned.
    pub fn is_poisoned(&self) -> (r: bool)
        ensures
            r == self.poison.failed,
    {
        self.poison.get()
    }

    /// Clears the poison, marking the data recovered.
    pub fn clear_poison(&mut self)
        ensures
            !final(self).poison.failed,
            final(self).readers == old(self).readers,
            final(self).writer == old(self).writer,
            final(self)@ == old(self)@,
            final(self).wf() == old(self).wf(),
    {
        self.poison.clear();
    }

    /// The guarded records; reachable only under a live guard.
    pub fn as_slice(&self) -> (r: &[T])
        requires
            self.readers > 0 || self.writer,
        ensures
            r@ == self@,
    {
        self.data.as_slice()
    }

    /// Overwrites one record; allowed only under the exclusive access.
    pub fn set(&mut self, i: usize, value: T)
        requires
            old(self).writer,
            i < old(self)@.len(),
        ensures
            final(self)@ == old(self)@.update(i as int, value),
            final(self).readers == old(self).readers,
            final(self).writer,
            final(self).poison == old(self).poison,
            final(self).wf() == old(self).wf(),
    {
        self.data[i] = value;
    }

    /// Reads one record; allowed only under a live guard.
    pub fn get(&self, i: usize) -> (r: &T)
        requires
            self.readers > 0 || self.writer,
            i < self@.len(),
        ensures
            *r == self@[i as int],
    {
        &self.data[i]
    }

    /// Replaces the whole table; allowed only under the exclusive access.
    pub fn fill(&mut self, data: Vec<T>)
        requires
            old(self).writer,
        ensures
            final(self)@ == data@,
            final(self).readers == old(self).readers,
            final(self).writer,
            final(self).poison == old(self).poison,
            final(self).wf() == old(self).wf(),
    {
        self.data = data;
    }
}

/// Law: write access is exclusive. In any well-formed lock state an
/// outstanding exclusive access leaves no shared access outstanding; with
/// the acquisition contracts, which grant a write only when nothing is
/// held and a read only while no writer holds, no two guarded critical
/// sections can overlap on the data, so no guarded update is lost.
pub proof fn lemma_write_access_is_exclusive<T>(l: SharedRwLock<T>)
    requires
        l.wf(),
        l.writer,
    ensures
        l.readers == 0,
{
}

/// Converts a wait duration (whole seconds and subsecond nanoseconds) to
/// the millisecond timeout word of the waiting primitive: milliseconds
/// rounded up, saturating to the all-ones word that means an unbounded
/// wait.
pub open spec fn spec_dur2timeout(secs: u64, subsec_nanos: u32) -> u32 {
    let ms = secs * 1000 + subsec_nanos / 1000000 + if subsec_nanos % 1000000 > 0 {
        1int
    } else {
        0int
    };
    if ms > u32::MAX {
        u32::MAX
    } else {
        ms as u32
    }
}

/// Converts a wait duration to a millisecond timeout word, rounding
/// nanoseconds up and saturating to the unbounded-wait word.
pub fn dur2timeout(secs: u64, subsec_nanos: u32) -> (r: u32)
    ensures
        r == spec_dur2timeout(secs, subsec_nanos),
{
    let extra: u128 = if subsec_nanos % 1000000 > 0 {
        1
    } else {
        0
    };
    let total: u128 = (secs as u128) * 1000 + (subsec_nanos / 1000000) as u128 + extra;
    if total > u32::MAX as u128 {
        u32::MAX
    } else {
        total as u32
    }
}

} // verus!
