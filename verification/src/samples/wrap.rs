//! A single-field generic wrapper that gains an infallible conversion
//! whenever its inner type has one: `Wrap<T>` converts into `Wrap<U>`
//! exactly when `T` converts into `U`.

use vstd::prelude::*;
use crate::{ConvertFrom, ConvertInto};

verus! {

/// A single-field wrapper around any inner type.
#[derive(Debug, PartialEq)]
pub struct Wrap<T>(pub T);

impl<T: ConvertInto<U>, U> ConvertFrom<Wrap<T>> for Wrap<U> {
    open spec fn convert_from_spec(value: Wrap<T>) -> Wrap<U> {
        Wrap(value.0.convert_into_spec())
    }

    fn convert_from(value: Wrap<T>) -> (result: Wrap<U>)
        returns
            Wrap(value.0.convert_into_spec()),
    {
        Wrap(value.0.convert_into())
    }
}

/// Composability: converting a wrapper converts the wrapped value, and
/// nothing else — the result of `Wrap<T>`'s derived `ConvertInto<Wrap<U>>`
/// wraps exactly the result of converting the inner value independently.
pub proof fn lemma_wrap_composes<T: ConvertInto<U>, U>(value: Wrap<T>)
    ensures
        <Wrap<T> as ConvertInto<Wrap<U>>>::convert_into_spec(value)
            == Wrap(value.0.convert_into_spec()),
{
}

} // verus!
