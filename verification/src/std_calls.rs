//! Calls into the standard library that are taken on trust.

use vstd::prelude::*;
use vstd::std_specs::iter::IteratorSpec;
use std::fmt::Debug;
use std::fmt::Write;
use std::hash::Hash;
use std::hash::Hasher;

verus! {

/// `core::fmt::Formatter`: the sink that `Debug` writes to. It is handed on
/// and never read.
#[verifier::external_type_specification]
#[verifier::external_body]
pub struct ExFormatter<'a>(core::fmt::Formatter<'a>);

/// `core::fmt::Error`: the failure of a formatter or of a `Debug`. It is
/// handed on and never read.
#[verifier::external_type_specification]
#[verifier::external_body]
pub struct ExFmtError(core::fmt::Error);

/// `core::option::IntoIter`: the iterator over the value of an `Option`.
#[verifier::external_type_specification]
#[verifier::external_body]
#[verifier::reject_recursive_types(A)]
pub struct ExOptionIntoIter<A>(core::option::IntoIter<A>);

/// `Option::into_iter`. The iterator yields the value of `option` once, if
/// there is one, and `None` from then on.
#[verifier::external_body]
pub(crate) fn option_into_iter<A>(option: Option<A>) -> (it: core::option::IntoIter<A>)
    ensures
        it.obeys_prophetic_iter_laws(),
        it.will_return_none(),
        it.remaining() == match option {
            Some(a) => seq![a],
            None => seq![],
        },
{
    option.into_iter()
}

/// `Hash::hash` of an `Option<&T>`. Nothing is known of a hasher's state, so
/// nothing is claimed.
#[verifier::external_body]
pub(crate) fn hash_option<T: Hash, H: Hasher>(value: Option<&T>, state: &mut H) {
    value.hash(state)
}

/// Writes `value` with `{:?}` into a fresh string. The text is whatever the
/// type's `Debug` writes, and the error is the one that it reports, so
/// nothing is claimed of either.
#[verifier::external_body]
pub(crate) fn debug_text<T: Debug>(value: &T) -> (r: Result<String, core::fmt::Error>) {
    let mut text = String::new();
    match write!(text, "{:?}", value) {
        Ok(()) => Ok(text),
        Err(e) => Err(e),
    }
}

/// `Formatter::write_str`: hands `text` to the formatter's sink and reports
/// the sink's error, if any.
#[verifier::external_body]
pub(crate) fn write_text(f: &mut core::fmt::Formatter<'_>, text: &str) -> (r: Result<
    (),
    core::fmt::Error,
>) {
    f.write_str(text)
}

} // verus!
