//! Splitting and extending statement and argument lists through `vec1::Vec1`,
//! the non-empty vector that function bodies are built from.
use vstd::prelude::*;

verus! {

/// Relies on `vec1::Vec1::try_from_vec`, which accepts any non-empty vector
/// unchanged, and `vec1::Vec1::split_off_last`, which removes the last element
/// and hands back the others in order beside it.
#[verifier::external_body]
pub(crate) fn split_off_last<T>(items: Vec<T>) -> (r: (Vec<T>, T))
    requires
        items@.len() > 0,
    ensures
        r.0@.push(r.1) == items@,
{
    match vec1::Vec1::try_from_vec(items) {
        Ok(items) => items.split_off_last(),
        Err(_) => unreached(),
    }
}

/// Relies on `vec1::Vec1::from_vec_push`, which pushes `last` onto `init`, and
/// `vec1::Vec1::into_vec`, which hands back the underlying vector.
#[verifier::external_body]
pub(crate) fn from_vec_push<T>(init: Vec<T>, last: T) -> (r: Vec<T>)
    ensures
        r@ == init@.push(last),
{
    vec1::Vec1::from_vec_push(init, last).into_vec()
}

} // verus!
