//! Optional-field containers for generated message types.
//!
//! A field of a message may be absent. [`SingularPtrField`] keeps such a
//! field behind one heap allocation and tells "present" apart from "storage
//! is owned", so that clearing a field and setting it again reuses the
//! allocation. [`OptionLike`] is the one interface that generated accessors
//! use, over this container and over the two plain ways to hold an optional
//! value.

pub mod clear;
pub mod laws;
pub mod message;
pub mod option_like;
pub mod singular;
pub mod state;
mod std_calls;

pub use crate::clear::Clear;
pub use crate::message::Message;
pub use crate::option_like::OptionLike;
pub use crate::singular::present_debug_string;
pub use crate::singular::SingularPtrField;
pub use crate::state::FieldState;
