//! What a message type offers to the fields that hold it.

use vstd::prelude::*;
use crate::clear::Clear;

verus! {

/// A message type: it can be reset in place, and it keeps one shared default
/// instance for the readers of absent fields.
pub trait Message: Clear + 'static {
    /// The shared default instance of the type.
    fn default_instance() -> (r: &'static Self)
        ensures
            r.is_clear(),
    ;
}

} // verus!
