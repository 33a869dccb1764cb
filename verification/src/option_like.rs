//! One interface over the ways a generated field can hold an optional value.

use vstd::prelude::*;
use crate::clear::Clear;

verus! {

/// What every holder of an optional value offers to generated accessors.
pub trait OptionLike<T> {
    /// The optional value that the object stands for.
    spec fn logical(&self) -> Option<T>;

    /// Gives up the object for the value it holds, if any.
    fn into_option(self) -> (r: Option<T>) where Self: Sized
        ensures
            r == self.logical(),
    ;

    /// Borrows the value, if any.
    fn as_option_ref(&self) -> (r: Option<&T>)
        ensures
            r == match self.logical() {
                Some(v) => Some(&v),
                None => None,
            },
    ;

    /// Borrows the value mutably, if any. What the caller writes through the
    /// borrow is what the object holds afterwards.
    fn as_option_mut(&mut self) -> (r: Option<&mut T>)
        ensures
            match old(self).logical() {
                Some(v) => r is Some && *r->0 == v && final(self).logical() == Some(*final(r->0)),
                None => r is None && final(self).logical() is None,
            },
    ;

    /// Makes the object hold `value`.
    fn set_value(&mut self, value: T)
        ensures
            final(self).logical() == Some(value),
    ;

    /// Makes the object hold the default contents of `T` and lends them out.
    /// Storage that the object already owns is reset in place; only an object
    /// without storage gets a value fresh from `Default::default`.
    fn set_default(&mut self) -> (r: &mut T) where T: Default + Clear
        ensures
            r.is_clear() || T::default.ensures((), *r),
            final(self).logical() == Some(*final(r)),
    ;
}

/// A plain optional value: nothing is retained, and the value is the
/// object itself.
impl<T> OptionLike<T> for Option<T> {
    open spec fn logical(&self) -> Option<T> {
        *self
    }

    fn into_option(self) -> (r: Option<T>) {
        self
    }

    fn as_option_ref(&self) -> (r: Option<&T>) {
        self.as_ref()
    }

    fn as_option_mut(&mut self) -> (r: Option<&mut T>) {
        self.as_mut()
    }

    fn set_value(&mut self, value: T) {
        *self = Some(value);
    }

    /// A plain optional value has no storage to keep, so it always takes a
    /// fresh default value, and clears that.
    fn set_default(&mut self) -> (r: &mut T) where T: Default + Clear
        ensures
            r.is_clear(),
    {
        *self = Some(Default::default());
        let v = self.as_mut().unwrap();
        v.clear();
        v
    }
}

/// An optional boxed value: the box is the storage, and it is there exactly
/// when the value is.
impl<T> OptionLike<T> for Option<Box<T>> {
    open spec fn logical(&self) -> Option<T> {
        match *self {
            Some(b) => Some(*b),
            None => None,
        }
    }

    fn into_option(self) -> (r: Option<T>) {
        match self {
            Some(b) => Some(*b),
            None => None,
        }
    }

    fn as_option_ref(&self) -> (r: Option<&T>) {
        match self {
            Some(b) => Some(&**b),
            None => None,
        }
    }

    fn as_option_mut(&mut self) -> (r: Option<&mut T>) {
        match self {
            Some(b) => Some(&mut **b),
            None => None,
        }
    }

    fn set_value(&mut self, value: T) {
        *self = Some(Box::new(value))
    }

    /// A box that is there is reset in place; only an empty object gets a
    /// fresh box with a fresh default value.
    fn set_default(&mut self) -> (r: &mut T) where T: Default + Clear
        ensures
            *old(self) is None ==> T::default.ensures((), *r),
            *old(self) is Some ==> r.is_clear(),
    {
        if self.is_some() {
            let v = self.as_mut().unwrap();
            v.clear();
            v
        } else {
            *self = Some(Box::new(Default::default()));
            self.as_mut().unwrap()
        }
    }
}

} // verus!
