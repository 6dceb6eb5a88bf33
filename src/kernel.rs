//! Status codes and lock handles of the kernel framework, as plain values.
use vstd::prelude::*;

verus! {

/// A kernel status code.
#[allow(non_camel_case_types)]
pub type NTSTATUS = i32;

/// The operation completed.
pub const STATUS_SUCCESS: NTSTATUS = 0;

/// A bounded wait elapsed before the object could be acquired.
///
/// Its value is not negative, so it counts as a success value; a lock
/// acquisition that reports it did not take the lock.
pub const STATUS_TIMEOUT: NTSTATUS = 258;

/// The framework could not allocate what was asked of it.
pub const STATUS_INSUFFICIENT_RESOURCES: NTSTATUS = -1073741670;

/// A status code is a success value exactly when it is not negative.
pub open spec fn is_success(status: NTSTATUS) -> bool {
    status >= 0
}

/// A lock acquisition took the lock: it reported success, and not a timeout.
pub open spec fn is_acquired(status: NTSTATUS) -> bool {
    is_success(status) && status != STATUS_TIMEOUT
}

/// Tells whether `status` is a success value.
pub fn nt_success(status: NTSTATUS) -> (r: bool)
    ensures
        r == is_success(status),
{
    status >= 0
}

/// Tells whether an acquisition that returned `status` holds the lock.
pub fn lock_acquired(status: NTSTATUS) -> (r: bool)
    ensures
        r == is_acquired(status),
{
    nt_success(status) && status != STATUS_TIMEOUT
}

/// The framework's token for one lock object.
///
/// The library never reads it: it is carried from the creation call to the
/// lock instance that owns it, and handed back to the framework from there.
#[derive(Clone, Copy, Debug, PartialEq, Eq, Structural)]
pub struct LockHandle {
    pub raw: usize,
}

} // verus!
