//! A single-field generic wrapper that gains a fallible conversion whenever
//! its inner type has one: `TryWrap<T>` fallibly converts into `TryWrap<U>`
//! exactly when `T` fallibly converts into `U`, with the same error type,
//! and an inner failure passes through unchanged.

use vstd::prelude::*;
use crate::{TryConvertFrom, TryConvertInto};

verus! {

/// A single-field wrapper around any inner type.
#[derive(Debug, PartialEq)]
pub struct TryWrap<T>(pub T);

impl<T: TryConvertInto<U, Error = E>, U, E> TryConvertFrom<TryWrap<T>> for TryWrap<U> {
    type Error = E;

    open spec fn try_convert_from_spec(value: TryWrap<T>) -> Result<TryWrap<U>, E> {
        match value.0.try_convert_into_spec() {
            Ok(inner) => Ok(TryWrap(inner)),
            Err(e) => Err(e),
        }
    }

    fn try_convert_from(value: TryWrap<T>) -> (result: Result<TryWrap<U>, E>)
        ensures
            value.0.try_convert_into_spec() matches Ok(inner)
                ==> result == Ok::<TryWrap<U>, E>(TryWrap(inner)),
            value.0.try_convert_into_spec() matches Err(e)
                ==> result == Err::<TryWrap<U>, E>(e),
    {
        match value.0.try_convert_into() {
            Ok(inner) => Ok(TryWrap(inner)),
            Err(e) => Err(e),
        }
    }
}

/// Fallible composability: `TryWrap<T>`'s derived `TryConvertInto<TryWrap<U>>`
/// keeps the inner conversion's error type, succeeds wrapping the converted
/// value whenever the inner conversion succeeds, and fails with the identical
/// error value whenever it fails.
pub proof fn lemma_try_wrap_composes<T: TryConvertInto<U, Error = E>, U, E>(value: TryWrap<T>)
    ensures
        <TryWrap<T> as TryConvertInto<TryWrap<U>>>::try_convert_into_spec(value)
            == (match value.0.try_convert_into_spec() {
                Ok(inner) => Ok::<TryWrap<U>, E>(TryWrap(inner)),
                Err(e) => Err::<TryWrap<U>, E>(e),
            }),
{
}

} // verus!
