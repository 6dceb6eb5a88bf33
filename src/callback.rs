//! What a scoped-access callback must accept.
use vstd::prelude::*;

verus! {

/// `f` may be called with any exclusive reference to the value `v`.
pub open spec fn accepts<T, R, F: FnOnce(&mut T) -> R>(f: F, v: T) -> bool {
    forall|m: &mut T| *m == v ==> #[trigger] f.requires((m,))
}

} // verus!
