//! Laws of the field container.
//!
//! Every operation of [`SingularPtrField`] is specified by what it does to
//! the [`FieldState`] of the field. The laws below are stated over those
//! states, so each of them holds of every run of the operations it names.

use vstd::prelude::*;
use vstd::std_specs::cmp::PartialEqSpec;
use crate::singular::SingularPtrField;
use crate::state::FieldState;

verus! {

/// A field built by `none` is absent: `is_none` holds of it and `is_some`
/// does not. A field built by `some` is present: `is_some` holds of it and
/// `is_none` does not.
pub proof fn lemma_constructors_decide_presence<T>(value: T)
    ensures
        FieldState::<T>::Vacant.logical() is None,
        !(FieldState::<T>::Vacant.logical() is Some),
        FieldState::Present(value).logical() is Some,
        !(FieldState::Present(value).logical() is None),
{
}

/// `some(value).into_option()` is `Some(value)`.
pub proof fn lemma_some_into_option<T>(value: T)
    ensures
        FieldState::Present(value).logical() == Some(value),
{
}

/// Clearing makes any field absent: an absent field stays absent and a
/// present one becomes absent. The value is not torn down: it stays in the
/// storage it was in, and a field without storage gains none.
pub proof fn lemma_clear_makes_absent<T>(state: FieldState<T>)
    ensures
        state.cleared().logical() is None,
        state.cleared().has_storage() == state.has_storage(),
        state matches FieldState::Present(v) ==> state.cleared() == FieldState::Retained(v),
        state.logical() is None ==> state.cleared() == state,
{
}

/// After `clear` on a present field the storage is still owned, so the reset
/// to default that follows works in that storage and asks for no other.
pub proof fn lemma_clear_then_reset_has_storage<T>(value: T)
    ensures
        FieldState::Present(value).cleared().has_storage(),
        FieldState::Present(value).cleared().logical() is None,
{
}

/// Taking the value out of a present field leaves the state that `none`
/// builds, with no storage behind it. Taking from an absent field changes
/// nothing, retained storage included.
pub proof fn lemma_take_leaves_none<T>(state: FieldState<T>)
    ensures
        state.taken().logical() is None,
        state matches FieldState::Present(_) ==> state.taken() == FieldState::<T>::Vacant,
        state.logical() is None ==> state.taken() == state,
{
}

/// Equality looks at the logical value alone. Two fields with the same
/// logical value compare alike with every third field, whatever storage
/// either of them retains.
pub proof fn lemma_eq_ignores_retained<T: PartialEq>(
    a: SingularPtrField<T>,
    b: SingularPtrField<T>,
    c: SingularPtrField<T>,
)
    requires
        a@ == b@,
    ensures
        a.eq_spec(&c) == b.eq_spec(&c),
        c.eq_spec(&a) == c.eq_spec(&b),
{
}

/// Absent fields are equal to each other, for every element type: one that
/// retains storage, one emptied by `take` and one built by `none` all compare
/// equal. An absent field and a present one are never equal. `==` returns
/// just that on such fields, whatever is known of `==` on the elements.
pub proof fn lemma_absent_fields_are_equal<T: PartialEq>(
    a: SingularPtrField<T>,
    b: SingularPtrField<T>,
    c: SingularPtrField<T>,
)
    requires
        a@ is None,
        b@ is None,
        c@ is Some,
    ensures
        a.eq_spec(&b),
        !a.eq_spec(&c),
        !c.eq_spec(&a),
{
}

/// A field rebuilt from its optional value has the same logical value, and
/// an optional value survives the way through a field unchanged. This is
/// the round trip that writing a field out and reading it back relies on.
pub proof fn lemma_option_round_trip<T>(state: FieldState<T>, option: Option<T>)
    ensures
        FieldState::of_option(state.logical()).logical() == state.logical(),
        FieldState::of_option(option).logical() == option,
        !(state is Retained) ==> FieldState::of_option(state.logical()) == state,
{
}

} // verus!
