//! A pair with a manual [`ConvertFrom`] implementation, from which
//! `ConvertInto`, `TryConvertFrom` and `TryConvertInto` are all derived.

use vstd::prelude::*;
use crate::ConvertFrom;

verus! {

/// Sample source type: a single byte.
#[derive(Debug, PartialEq)]
pub struct A(pub u8);

/// Sample target type: a single byte.
#[derive(Debug, PartialEq)]
pub struct B(pub u8);

impl ConvertFrom<A> for B {
    open spec fn convert_from_spec(value: A) -> B {
        B(value.0)
    }

    fn convert_from(value: A) -> (result: B)
        ensures
            result == B(value.0),
    {
        B(value.0)
    }
}

} // verus!
