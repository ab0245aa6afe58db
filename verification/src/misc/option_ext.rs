//! Comparing what an option holds with a value.

use vstd::prelude::*;

verus! {

/// Options whose content can be compared with a value.
pub trait OptionExt<T: PartialEq> {
    /// What is held, if anything.
    spec fn held(&self) -> Option<T>;

    /// Whether something is held that `==` finds equal to `value`.
    fn eq_to_some(&self, value: &T) -> (same: bool)
        ensures
            match self.held() {
                None => !same,
                Some(inner) => call_ensures(T::eq, (&inner, value), same),
            },
    ;
}

impl<T: PartialEq> OptionExt<T> for Option<T> {
    open spec fn held(&self) -> Option<T> {
        *self
    }

    fn eq_to_some(&self, value: &T) -> (same: bool) {
        match self {
            None => false,
            Some(unwrapped) => unwrapped.eq(value),
        }
    }
}

} // verus!
