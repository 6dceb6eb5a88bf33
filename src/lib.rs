//! Synchronisation primitives that pair a kernel framework lock with the data
//! it protects.
pub mod callback;
pub mod kernel;
pub mod spinlock;
pub mod waitlock;

pub use kernel::{lock_acquired, nt_success, LockHandle, NTSTATUS, STATUS_INSUFFICIENT_RESOURCES, STATUS_SUCCESS, STATUS_TIMEOUT};
pub use spinlock::SpinLock;
pub use waitlock::WaitLock;
