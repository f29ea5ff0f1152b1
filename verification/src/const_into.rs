//! A by-value conversion used by the builder methods that accept either a
//! complete set of face paths or an already-converted internal set.

use vstd::prelude::*;

verus! {

/// A by-value conversion into `T`.
pub trait ConstInto<T>: Sized {
    /// The value this converts into.
    spec fn spec_into(self) -> T;

    /// Converts this value into a `T`.
    fn const_into(self) -> (r: T)
        ensures
            r == self.spec_into(),
    ;
}

impl<T: Sized> ConstInto<T> for T {
    open spec fn spec_into(self) -> T {
        self
    }

    fn const_into(self) -> (r: T) {
        self
    }
}

} // verus!
