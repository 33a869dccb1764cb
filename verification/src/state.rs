//! The three states of an optional field, as a mathematical value.

use vstd::prelude::*;

verus! {

/// What a field holds. Storage and presence are separate: a field can own an
/// allocation that no reader may look at.
pub enum FieldState<T> {
    /// Absent, and no storage is owned.
    Vacant,
    /// Absent, but storage is owned and still holds this value.
    Retained(T),
    /// Present with this value.
    Present(T),
}

impl<T> FieldState<T> {
    /// The optional value that every reader of the field sees.
    pub open spec fn logical(self) -> Option<T> {
        match self {
            FieldState::Present(v) => Some(v),
            _ => None,
        }
    }

    /// Whether an allocation is owned, looked at or not.
    pub open spec fn has_storage(self) -> bool {
        !(self is Vacant)
    }

    /// The state that stands for an optional value; `None` owns nothing.
    pub open spec fn of_option(option: Option<T>) -> Self {
        match option {
            Some(v) => FieldState::Present(v),
            None => FieldState::Vacant,
        }
    }

    /// The state after the field is marked absent: what is stored stays stored.
    pub open spec fn cleared(self) -> Self {
        match self {
            FieldState::Present(v) => FieldState::Retained(v),
            s => s,
        }
    }

    /// The state after a present value is moved out: its storage goes with
    /// it. An absent field is left as it is.
    pub open spec fn taken(self) -> Self {
        match self {
            FieldState::Present(_) => FieldState::Vacant,
            s => s,
        }
    }
}

} // verus!
