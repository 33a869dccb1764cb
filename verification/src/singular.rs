//! An optional boxed field that keeps its allocation when cleared.

use vstd::prelude::*;
use vstd::std_specs::cmp::PartialEqSpec;
use vstd::std_specs::iter::IteratorSpec;
use vstd::string::StringExecFns;
use std::fmt::Debug;
use std::hash::Hash;
use std::hash::Hasher;
use crate::clear::Clear;
use crate::message::Message;
use crate::option_like::OptionLike;
use crate::state::FieldState;
use crate::std_calls::debug_text;
use crate::std_calls::hash_option;
use crate::std_calls::option_into_iter;
use crate::std_calls::write_text;

verus! {

/// An optional field whose value lives in one heap allocation, and which
/// keeps that allocation when it is cleared.
///
/// The field is present exactly when `set` holds. `value` is the storage: it
/// may outlive the presence of the field, and then nothing reads it until a
/// reset to default takes it into use again.
pub struct SingularPtrField<T> {
    value: Option<Box<T>>,
    set: bool,
}

impl<T> View for SingularPtrField<T> {
    type V = Option<T>;

    /// The logical content: `Some` exactly when the field is present.
    open spec fn view(&self) -> Option<T> {
        self.state().logical()
    }
}

/// Borrows the element of a filled slot.
fn slot_mut<T>(slot: &mut Option<Box<T>>) -> (r: &mut T)
    requires
        *old(slot) is Some,
    ensures
        *r == *old(slot)->0,
        *final(slot) == Some(Box::new(*final(r))),
    no_unwind
{
    match slot {
        Some(b) => &mut **b,
        None => vstd::pervasive::unreached(),
    }
}

impl<T> SingularPtrField<T> {
    /// A present field owns storage.
    #[verifier::type_invariant]
    spec fn presence_has_storage(self) -> bool {
        self.set ==> self.value is Some
    }

    /// Which of the three states the field is in, with the value held there.
    pub closed spec fn state(&self) -> FieldState<T> {
        match self.value {
            Some(b) => if self.set {
                FieldState::Present(*b)
            } else {
                FieldState::Retained(*b)
            },
            None => FieldState::Vacant,
        }
    }

    /// A present field that holds `value` in fresh storage.
    pub fn some(value: T) -> (r: SingularPtrField<T>)
        ensures
            r.state() == FieldState::Present(value),
            r@ == Some(value),
    {
        SingularPtrField { value: Some(Box::new(value)), set: true }
    }

    /// An absent field that owns no storage.
    pub fn none() -> (r: SingularPtrField<T>)
        ensures
            r.state() == FieldState::<T>::Vacant,
            r@ is None,
    {
        SingularPtrField { value: None, set: false }
    }

    /// The field that stands for `option`: present for `Some`, absent and
    /// without storage for `None`.
    pub fn from_option(option: Option<T>) -> (r: SingularPtrField<T>)
        ensures
            r.state() == FieldState::of_option(option),
            r@ == option,
    {
        match option {
            Some(x) => SingularPtrField::some(x),
            None => SingularPtrField::none(),
        }
    }

    /// Whether the field is present.
    pub fn is_some(&self) -> (r: bool)
        ensures
            r == (self@ is Some),
    {
        proof {
            use_type_invariant(self);
        }
        self.set
    }

    /// Whether the field is absent.
    pub fn is_none(&self) -> (r: bool)
        ensures
            r == (self@ is None),
    {
        !self.is_some()
    }

    /// Gives up the field for its value, if it is present. What an absent
    /// field retains is released unseen.
    pub fn into_option(self) -> (r: Option<T>)
        ensures
            r == self@,
    {
        proof {
            use_type_invariant(&self);
        }
        if self.set {
            Some(*self.value.unwrap())
        } else {
            None
        }
    }

    /// Borrows the value of a present field.
    pub fn as_ref(&self) -> (r: Option<&T>)
        ensures
            r == match self@ {
                Some(v) => Some(&v),
                None => None,
            },
    {
        proof {
            use_type_invariant(self);
        }
        if self.set {
            Some(&**self.value.as_ref().unwrap())
        } else {
            None
        }
    }

    /// Borrows the value of a present field mutably. What the caller writes
    /// through the borrow is the value of the field afterwards. An absent
    /// field is left exactly as it is.
    pub fn as_mut(&mut self) -> (r: Option<&mut T>)
        ensures
            match old(self)@ {
                Some(v) => r is Some && *r->0 == v && final(self).state() == FieldState::Present(
                    *final(r->0),
                ),
                None => r is None && final(self).state() == old(self).state(),
            },
    {
        proof {
            use_type_invariant(&*self);
        }
        if self.set {
            Some(slot_mut(&mut self.value))
        } else {
            None
        }
    }

    /// Borrows the value of a field that the caller knows to be present.
    pub fn get_ref(&self) -> (r: &T)
        requires
            self@ is Some,
        ensures
            *r == self@->0,
    {
        self.as_ref().unwrap()
    }

    /// Borrows the value of a field that the caller knows to be present,
    /// mutably.
    pub fn get_mut_ref(&mut self) -> (r: &mut T)
        requires
            old(self)@ is Some,
        ensures
            *r == old(self)@->0,
            final(self).state() == FieldState::Present(*final(r)),
    {
        self.as_mut().unwrap()
    }

    /// Gives up a field that the caller knows to be present for its value.
    pub fn unwrap(self) -> (r: T)
        requires
            self@ is Some,
        ensures
            r == self@->0,
    {
        proof {
            use_type_invariant(&self);
        }
        *self.value.unwrap()
    }

    /// Gives up the field for its value, or for `def` if it is absent.
    pub fn unwrap_or(self, def: T) -> (r: T)
        ensures
            r == match self@ {
                Some(v) => v,
                None => def,
            },
    {
        proof {
            use_type_invariant(&self);
        }
        if self.set {
            *self.value.unwrap()
        } else {
            def
        }
    }

    /// Gives up the field for its value, or for what `f` returns if it is
    /// absent. `f` is called only for an absent field.
    pub fn unwrap_or_else<F>(self, f: F) -> (r: T) where F: FnOnce() -> T
        requires
            self@ is None ==> f.requires(()),
        ensures
            self@ matches Some(v) ==> r == v,
            self@ is None ==> f.ensures((), r),
    {
        proof {
            use_type_invariant(&self);
        }
        if self.set {
            *self.value.unwrap()
        } else {
            f()
        }
    }

    /// A new field with `f` applied to the value: present with the result if
    /// the field is present, absent and without storage otherwise. `f` is
    /// called only for a present field.
    pub fn map<U, F>(self, f: F) -> (r: SingularPtrField<U>) where F: FnOnce(T) -> U
        requires
            self@ matches Some(v) ==> f.requires((v,)),
        ensures
            self@ is None ==> r.state() == FieldState::<U>::Vacant,
            self@ matches Some(v) ==> r.state() matches FieldState::Present(u) && f.ensures(
                (v,),
                u,
            ),
    {
        SingularPtrField::from_option(self.into_option().map(f))
    }

    /// An iterator over the value: it yields a borrow of it once if the
    /// field is present, and nothing otherwise. Every call starts afresh.
    pub fn iter(&self) -> (it: core::option::IntoIter<&T>)
        ensures
            it.obeys_prophetic_iter_laws(),
            it.will_return_none(),
            it.remaining() == match self@ {
                Some(v) => seq![&v],
                None => seq![],
            },
    {
        option_into_iter(self.as_ref())
    }

    /// An iterator over the value that lends it mutably: it yields a borrow
    /// once if the field is present, and what is written through that borrow
    /// is the value of the field afterwards.
    pub fn mut_iter(&mut self) -> (it: core::option::IntoIter<&mut T>)
        ensures
            it.obeys_prophetic_iter_laws(),
            it.will_return_none(),
            match old(self)@ {
                Some(v) => it.remaining().len() == 1 && *it.remaining()[0] == v
                    && final(self).state() == FieldState::Present(*final(it.remaining()[0])),
                None => it.remaining().len() == 0 && final(self).state() == old(self).state(),
            },
    {
        option_into_iter(self.as_mut())
    }

    /// Moves the value out of a present field and leaves the field absent.
    /// The storage of the value leaves with it; an absent field is not
    /// touched and keeps what it retains.
    pub fn take(&mut self) -> (r: Option<T>)
        ensures
            r == old(self)@,
            final(self).state() == old(self).state().taken(),
    {
        proof {
            use_type_invariant(&*self);
        }
        if self.set {
            self.set = false;
            let mut slot: Option<Box<T>> = None;
            core::mem::swap(&mut self.value, &mut slot);
            Some(*slot.unwrap())
        } else {
            None
        }
    }

    /// Marks the field absent. The value is neither torn down nor released:
    /// it stays in its storage, out of every reader's sight, until the
    /// storage is used again or the field is dropped.
    pub fn clear(&mut self)
        ensures
            final(self).state() == old(self).state().cleared(),
    {
        proof {
            use_type_invariant(&*self);
        }
        self.set = false;
    }
}

impl<T: Default + Clear> SingularPtrField<T> {
    /// Gives up the field for its value, or for a default value if it is
    /// absent. Storage left over from an earlier value is reset and handed
    /// out; only a field without storage asks `T` for a fresh default.
    pub fn unwrap_or_default(self) -> (r: T)
        ensures
            match self.state() {
                FieldState::Present(v) => r == v,
                FieldState::Retained(_) => r.is_clear(),
                FieldState::Vacant => T::default.ensures((), r),
            },
    {
        proof {
            use_type_invariant(&self);
        }
        if self.set {
            self.unwrap()
        } else if self.value.is_some() {
            let mut retained = self.value.unwrap();
            retained.clear();
            *retained
        } else {
            Default::default()
        }
    }

    /// Makes the field present with the default contents of `T` and lends
    /// them out. Storage that the field owns, in use or retained, is reset in
    /// place; only a field without storage gets a fresh default value.
    pub fn set_default(&mut self) -> (r: &mut T)
        ensures
            old(self).state().has_storage() ==> r.is_clear(),
            !old(self).state().has_storage() ==> T::default.ensures((), *r),
            final(self).state() == FieldState::Present(*final(r)),
    {
        OptionLike::set_default(self)
    }
}

impl<M: Message + Default> SingularPtrField<M> {
    /// Borrows the value of a present field, or the shared default instance
    /// of `M` if the field is absent. The field itself is not changed.
    pub fn get_or_default(&self) -> (r: &M)
        ensures
            self@ matches Some(v) ==> *r == v,
            self@ is None ==> r.is_clear() && M::default_instance.ensures((), r),
    {
        match self.as_ref() {
            Some(v) => v,
            None => M::default_instance(),
        }
    }

    /// Borrows the value mutably, after making an absent field present with
    /// the default contents of `M`.
    pub fn mut_or_default(&mut self) -> (r: &mut M)
        ensures
            old(self)@ matches Some(v) ==> *r == v,
            old(self).state() is Retained ==> r.is_clear(),
            old(self).state() is Vacant ==> M::default.ensures((), *r),
            final(self).state() == FieldState::Present(*final(r)),
    {
        if self.is_none() {
            self.set_default();
        }
        self.get_mut_ref()
    }
}

/// The debug text of a present field, made from the outcome of writing its
/// value: `Some(..)` around the text of the value, or the failure of the
/// value handed on as it is.
pub fn present_debug_string(inner: Result<String, core::fmt::Error>) -> (r: Result<
    String,
    core::fmt::Error,
>)
    ensures
        inner matches Ok(s) ==> (r matches Ok(text) && text@ == "Some("@ + s@ + ")"@),
        inner matches Err(e) ==> r == Err::<String, core::fmt::Error>(e),
{
    match inner {
        Ok(s) => Ok(String::from_str("Some(").concat(s.as_str()).concat(")")),
        Err(e) => Err(e),
    }
}

impl<T: Debug> SingularPtrField<T> {
    /// The text that `{:?}` shows: `None` for an absent field, whatever it
    /// retains, and for a present field what `present_debug_string` makes of
    /// the text of its value. It fails only where the `Debug` of a present
    /// value does.
    pub fn debug_string(&self) -> (r: Result<String, core::fmt::Error>)
        ensures
            self@ is None ==> (r matches Ok(text) && text@ == "None"@),
            self@ is Some ==> (r matches Ok(text) ==> exists|inner: Seq<char>|
                text@ == "Some("@ + inner + ")"@),
    {
        match self.as_ref() {
            Some(v) => present_debug_string(debug_text(v)),
            None => Ok(String::from_str("None")),
        }
    }
}

impl<T> Default for SingularPtrField<T> {
    /// The absent field without storage.
    fn default() -> (r: SingularPtrField<T>)
        ensures
            r.state() == FieldState::<T>::Vacant,
    {
        SingularPtrField::none()
    }
}

impl<T> From<Option<T>> for SingularPtrField<T> {
    /// The field that stands for `o`, as `from_option` builds it.
    fn from(o: Option<T>) -> (r: Self)
        ensures
            r.state() == FieldState::of_option(o),
    {
        let r = SingularPtrField::from_option(o);
        proof {
            use_type_invariant(&r);
        }
        r
    }
}

impl<T> vstd::std_specs::convert::FromSpecImpl<Option<T>> for SingularPtrField<T> {
    open spec fn obeys_from_spec() -> bool {
        true
    }

    closed spec fn from_spec(o: Option<T>) -> Self {
        match o {
            Some(v) => SingularPtrField { value: Some(Box::new(v)), set: true },
            None => SingularPtrField { value: None, set: false },
        }
    }
}

impl<T: Clone> Clone for SingularPtrField<T> {
    /// Clones the value of a present field into storage of its own. The clone
    /// of an absent field owns nothing, whatever `self` retains.
    fn clone(&self) -> (r: SingularPtrField<T>)
        ensures
            self@ is None ==> r.state() == FieldState::<T>::Vacant,
            self@ matches Some(v) ==> r.state() matches FieldState::Present(c) && cloned(v, c),
    {
        proof {
            use_type_invariant(self);
        }
        if self.set {
            SingularPtrField::some(self.as_ref().unwrap().clone())
        } else {
            SingularPtrField::none()
        }
    }
}

impl<T: PartialEq> PartialEq for SingularPtrField<T> {
    /// Compares the logical values. Storage that an absent field retains
    /// makes no difference.
    fn eq(&self, other: &SingularPtrField<T>) -> (r: bool)
        ensures
            self@ is None && other@ is None ==> r,
            (self@ is None) != (other@ is None) ==> !r,
    {
        match (self.as_ref(), other.as_ref()) {
            (Some(a), Some(b)) => a == b,
            (None, None) => true,
            _ => false,
        }
    }
}

impl<T: PartialEq> vstd::std_specs::cmp::PartialEqSpecImpl for SingularPtrField<T> {
    open spec fn obeys_eq_spec() -> bool {
        <T as PartialEqSpec>::obeys_eq_spec()
    }

    /// Two fields are equal when their logical values are.
    open spec fn eq_spec(&self, other: &SingularPtrField<T>) -> bool {
        match (self@, other@) {
            (Some(a), Some(b)) => a.eq_spec(&b),
            (None, None) => true,
            _ => false,
        }
    }
}

impl<T: Eq> Eq for SingularPtrField<T> {

}

impl<T: Hash> Hash for SingularPtrField<T> {
    /// Hashes the logical value, as `Option` does. Storage that an absent
    /// field retains is not hashed.
    fn hash<H: Hasher>(&self, state: &mut H) {
        hash_option(self.as_ref(), state)
    }
}

impl<T: Debug> Debug for SingularPtrField<T> {
    /// Writes the text of `debug_string`.
    fn fmt(&self, f: &mut core::fmt::Formatter<'_>) -> (r: Result<(), core::fmt::Error>) {
        match self.debug_string() {
            Ok(text) => write_text(f, text.as_str()),
            Err(e) => Err(e),
        }
    }
}

impl<'a, T> IntoIterator for &'a SingularPtrField<T> {
    type Item = &'a T;

    type IntoIter = core::option::IntoIter<&'a T>;

    /// The iterator that `iter` gives.
    fn into_iter(self) -> (it: core::option::IntoIter<&'a T>)
        ensures
            it.obeys_prophetic_iter_laws(),
            it.will_return_none(),
            it.remaining() == match self@ {
                Some(v) => seq![&v],
                None => seq![],
            },
    {
        self.iter()
    }
}

impl<T> OptionLike<T> for SingularPtrField<T> {
    open spec fn logical(&self) -> Option<T> {
        self@
    }

    fn into_option(self) -> (r: Option<T>) {
        self.into_option()
    }

    fn as_option_ref(&self) -> (r: Option<&T>) {
        self.as_ref()
    }

    fn as_option_mut(&mut self) -> (r: Option<&mut T>)
        ensures
            old(self)@ is Some ==> final(self).state() == FieldState::Present(*final(r->0)),
            old(self)@ is None ==> final(self).state() == old(self).state(),
    {
        self.as_mut()
    }

    fn set_value(&mut self, value: T)
        ensures
            final(self).state() == FieldState::Present(value),
    {
        *self = SingularPtrField::some(value);
    }

    /// Makes the field present with the default contents of `T`. A field
    /// that owns storage has it reset in place, which saves the allocation
    /// that a fresh value would cost.
    fn set_default(&mut self) -> (r: &mut T) where T: Default + Clear
        ensures
            old(self).state().has_storage() ==> r.is_clear(),
            !old(self).state().has_storage() ==> T::default.ensures((), *r),
            final(self).state() == FieldState::Present(*final(r)),
    {
        if self.value.is_some() {
            slot_mut(&mut self.value).clear();
        } else {
            self.value = Some(Default::default());
        }
        self.set = true;
        slot_mut(&mut self.value)
    }
}

} // verus!
