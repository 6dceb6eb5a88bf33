//! A lock for data that is reached from code that may block.
use vstd::prelude::*;
use crate::callback::accepts;
use crate::kernel::{is_acquired, is_success, lock_acquired, nt_success, LockHandle, NTSTATUS};

verus! {

/// A framework wait lock together with the value that it protects.
///
/// The value is reached only through [`WaitLock::with`], once the
/// framework has reported that the lock is held. The lock handle is fixed at
/// construction for the instance's whole life.
pub struct WaitLock<T> {
    wdf_wait_lock: LockHandle,
    inner: T,
}

impl<T> WaitLock<T> {
    /// The protected value.
    pub closed spec fn value(&self) -> T {
        self.inner
    }

    /// The framework lock object that this instance owns.
    pub closed spec fn lock_handle(&self) -> LockHandle {
        self.wdf_wait_lock
    }

    /// What construction yields for a creation call that answered `status`
    /// and wrote `handle`.
    pub closed spec fn constructed(init: T, status: NTSTATUS, handle: LockHandle) -> Result<Self, NTSTATUS> {
        if is_success(status) {
            Ok(WaitLock { wdf_wait_lock: handle, inner: init })
        } else {
            Err(status)
        }
    }

    /// Builds the instance from the outcome of the framework's creation call:
    /// its status, and the handle it wrote.
    ///
    /// On a failure status no instance exists, `init` is dropped, and the
    /// status is the error.
    pub fn try_new(init: T, status: NTSTATUS, handle: LockHandle) -> (r: Result<Self, NTSTATUS>)
        ensures
            r == Self::constructed(init, status, handle),
            r is Ok <==> is_success(status),
            r matches Ok(l) ==> l.value() == init && l.lock_handle() == handle,
            r matches Err(e) ==> e == status,
    {
        if nt_success(status) {
            Ok(WaitLock { wdf_wait_lock: handle, inner: init })
        } else {
            Err(status)
        }
    }

    /// The same as [`WaitLock::try_new`], under the framework's own verb.
    pub fn create(init: T, status: NTSTATUS, handle: LockHandle) -> (r: Result<Self, NTSTATUS>)
        ensures
            r == Self::constructed(init, status, handle),
            r is Ok <==> is_success(status),
            r matches Ok(l) ==> l.value() == init && l.lock_handle() == handle,
            r matches Err(e) ==> e == status,
    {
        Self::try_new(init, status, handle)
    }

    /// The framework lock object that this instance owns, to acquire and
    /// release it with.
    pub fn handle(&self) -> (h: LockHandle)
        ensures
            h == self.lock_handle(),
    {
        self.wdf_wait_lock
    }

    /// Runs `f` on the protected value, given the status with which the
    /// framework answered the acquisition.
    ///
    /// Where the lock was not taken (a failure status, or a timeout), `f` is
    /// not called, the value stays as it was, and the status is the error.
    /// Otherwise `f` gets the value exclusively and its result is returned;
    /// the caller then releases the lock.
    ///
    /// A wait with a bounded or no timeout is made at `PASSIVE_LEVEL`; a
    /// zero timeout only asks for `IRQL < DISPATCH_LEVEL`. Calling this again
    /// from inside `f` on the same lock deadlocks in the framework.
    pub fn with<R, F: FnOnce(&mut T) -> R>(&mut self, acquire_status: NTSTATUS, f: F) -> (r: Result<R, NTSTATUS>)
        requires
            is_acquired(acquire_status) ==> accepts(f, old(self).value()),
        ensures
            final(self).lock_handle() == old(self).lock_handle(),
            r is Ok <==> is_acquired(acquire_status),
            r is Ok ==> exists|m: &mut T, v: R|
                r == Ok::<R, NTSTATUS>(v) && *m == old(self).value() && *final(m) == final(self).value()
                    && #[trigger] f.ensures((m,), v),
            r matches Err(e) ==> e == acquire_status && final(self).value() == old(self).value(),
    {
        if lock_acquired(acquire_status) {
            let r = f(&mut self.inner);
            Ok(r)
        } else {
            Err(acquire_status)
        }
    }
}

/// A lock built from a successful creation call holds exactly the value it
/// was given, so the callback of its first scoped access is handed that value;
/// after a failed one there is no lock, only the status.
pub proof fn lemma_first_access_sees_initial_value<T>(init: T, status: NTSTATUS, handle: LockHandle)
    ensures
        is_success(status) ==> WaitLock::<T>::constructed(init, status, handle) is Ok,
        WaitLock::<T>::constructed(init, status, handle) matches Ok(l) ==> l.value() == init
            && l.lock_handle() == handle,
        !is_success(status) ==> WaitLock::<T>::constructed(init, status, handle) == Err::<
            WaitLock<T>,
            NTSTATUS,
        >(status),
{
}

/// `update` applied `n` times to `v`.
pub open spec fn iterate<T>(update: spec_fn(T) -> T, v: T, n: nat) -> T
    decreases n,
{
    if n == 0 {
        v
    } else {
        update(iterate(update, v, (n - 1) as nat))
    }
}

/// How many of the acquisition statuses report that the lock was taken.
pub open spec fn count_acquired(statuses: Seq<NTSTATUS>) -> nat
    decreases statuses.len(),
{
    if statuses.len() == 0 {
        0
    } else {
        count_acquired(statuses.drop_last()) + if is_acquired(statuses.last()) {
            1nat
        } else {
            0nat
        }
    }
}

/// Successive scoped accesses to one lock compose with no update lost.
///
/// `values[i]` is the protected value before the `i`-th access, which was
/// answered `statuses[i]` and returned `results[i]`; each step is related as
/// [`WaitLock::with`] relates them. When the callback always replaces the
/// value `v` by `update(v)`, the value after the run is `update` applied once
/// for every access that took the lock, starting from the first value.
pub proof fn lemma_accesses_compose<T, R, F: FnOnce(&mut T) -> R>(
    values: Seq<T>,
    statuses: Seq<NTSTATUS>,
    results: Seq<Result<R, NTSTATUS>>,
    f: F,
    update: spec_fn(T) -> T,
)
    requires
        values.len() == statuses.len() + 1,
        results.len() == statuses.len(),
        forall|m: &mut T, v: R| #[trigger] f.ensures((m,), v) ==> *final(m) == update(*m),
        forall|i: int|
            0 <= i < statuses.len() ==> (#[trigger] results[i] is Ok <==> is_acquired(statuses[i])),
        forall|i: int|
            0 <= i < statuses.len() && #[trigger] results[i] is Ok ==> exists|m: &mut T, v: R|
                results[i] == Ok::<R, NTSTATUS>(v) && *m == values[i] && *final(m) == values[i + 1]
                    && #[trigger] f.ensures((m,), v),
        forall|i: int|
            0 <= i < statuses.len() && #[trigger] results[i] is Err ==> values[i + 1] == values[i],
    ensures
        values.last() == iterate(update, values[0], count_acquired(statuses)),
    decreases statuses.len(),
{
    let n = statuses.len() as int;
    if n > 0 {
        lemma_accesses_compose(values.drop_last(), statuses.drop_last(), results.drop_last(), f, update);
        assert(statuses.drop_last() == statuses.subrange(0, n - 1));
        let i = n - 1;
        assert(results[i] is Ok || results[i] is Err);
        if results[i] is Ok {
            let (m, v) = choose|m: &mut T, v: R|
                results[i] == Ok::<R, NTSTATUS>(v) && *m == values[i] && *final(m) == values[i + 1]
                    && #[trigger] f.ensures((m,), v);
            assert(values[i + 1] == update(values[i]));
        }
    }
}

} // verus!
