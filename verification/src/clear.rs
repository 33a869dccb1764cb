//! Resetting a value to its default contents in place.

use vstd::prelude::*;

verus! {

/// A value that can be reset in place to the default contents of its type,
/// keeping whatever storage it already owns.
pub trait Clear: Default {
    /// Whether `self` holds the default contents of its type.
    ///
    /// Unless a type says otherwise, these are the values that
    /// `Default::default` is known to return. A verified type whose `clear`
    /// resets in place must say otherwise: it overrides this predicate with
    /// what its cleared contents are, since of a value that did not come out
    /// of `Default::default` nothing shows that it could have.
    open spec fn is_clear(&self) -> bool {
        Self::default.ensures((), *self)
    }

    /// Resets `self` to the default contents.
    fn clear(&mut self)
        ensures
            final(self).is_clear(),
    ;
}

/// An optional value is clear when it is `None`.
impl<T> Clear for Option<T> {
    open spec fn is_clear(&self) -> bool {
        *self is None
    }

    fn clear(&mut self) {
        *self = None;
    }
}

/// A vector is clear when it is empty; clearing keeps its capacity.
impl<T> Clear for Vec<T> {
    open spec fn is_clear(&self) -> bool {
        self@.len() == 0
    }

    fn clear(&mut self) {
        Vec::clear(self);
    }
}

} // verus!
