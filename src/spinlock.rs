//! A lock for data that is reached from code that must not block.
use vstd::prelude::*;
use crate::callback::accepts;
use crate::kernel::{is_success, nt_success, LockHandle, NTSTATUS};

verus! {

/// A framework spin lock together with the value that it protects.
///
/// The value is reached only through [`SpinLock::with`]. Acquiring the
/// framework lock raises the caller to `DISPATCH_LEVEL` and releasing it
/// restores the level that was current before, so the callback must be short
/// and must not block.
pub struct SpinLock<T> {
    wdf_spin_lock: LockHandle,
    inner: T,
}

impl<T> SpinLock<T> {
    /// The protected value.
    pub closed spec fn value(&self) -> T {
        self.inner
    }

    /// The framework lock object that this instance owns.
    pub closed spec fn lock_handle(&self) -> LockHandle {
        self.wdf_spin_lock
    }

    /// What construction yields for a creation call that answered `status`
    /// and wrote `handle`.
    pub closed spec fn constructed(init: T, status: NTSTATUS, handle: LockHandle) -> Result<Self, NTSTATUS> {
        if is_success(status) {
            Ok(SpinLock { wdf_spin_lock: handle, inner: init })
        } else {
            Err(status)
        }
    }

    /// Builds the instance from the outcome of the framework's creation call:
    /// its status, and the handle it wrote.
    ///
    /// On a failure status no instance exists, `init` is dropped, and the
    /// status is the error.
    pub fn try_new(init: T, status: NTSTATUS, handle: LockHandle) -> (r: Result<Self, NTSTATUS>)
        ensures
            r == Self::constructed(init, status, handle),
            r is Ok <==> is_success(status),
            r matches Ok(l) ==> l.value() == init && l.lock_handle() == handle,
            r matches Err(e) ==> e == status,
    {
        if nt_success(status) {
            Ok(SpinLock { wdf_spin_lock: handle, inner: init })
        } else {
            Err(status)
        }
    }

    /// The same as [`SpinLock::try_new`], under the framework's own verb.
    pub fn create(init: T, status: NTSTATUS, handle: LockHandle) -> (r: Result<Self, NTSTATUS>)
        ensures
            r == Self::constructed(init, status, handle),
            r is Ok <==> is_success(status),
            r matches Ok(l) ==> l.value() == init && l.lock_handle() == handle,
            r matches Err(e) ==> e == status,
    {
        Self::try_new(init, status, handle)
    }

    /// The framework lock object that this instance owns, to acquire and
    /// release it with.
    pub fn handle(&self) -> (h: LockHandle)
        ensures
            h == self.lock_handle(),
    {
        self.wdf_spin_lock
    }

    /// Runs `f` on the protected value while the caller holds the spin lock,
    /// and returns what `f` returned.
    ///
    /// Spin lock acquisition does not fail, so neither does this. Calling it
    /// again from inside `f` on the same lock spins for ever.
    pub fn with<R, F: FnOnce(&mut T) -> R>(&mut self, f: F) -> (r: R)
        requires
            accepts(f, old(self).value()),
        ensures
            final(self).lock_handle() == old(self).lock_handle(),
            exists|m: &mut T|
                *m == old(self).value() && *final(m) == final(self).value() && #[trigger] f.ensures((m,), r),
    {
        f(&mut self.inner)
    }
}

/// A spin lock built from a successful creation call holds exactly the value
/// it was given, so the callback of its first scoped access is handed that
/// value; after a failed one there is no lock, only the status.
pub proof fn lemma_spin_first_access_sees_initial_value<T>(init: T, status: NTSTATUS, handle: LockHandle)
    ensures
        is_success(status) ==> SpinLock::<T>::constructed(init, status, handle) is Ok,
        SpinLock::<T>::constructed(init, status, handle) matches Ok(l) ==> l.value() == init
            && l.lock_handle() == handle,
        !is_success(status) ==> SpinLock::<T>::constructed(init, status, handle) == Err::<
            SpinLock<T>,
            NTSTATUS,
        >(status),
{
}

} // verus!
