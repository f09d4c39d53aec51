//! A pair whose relationship is written in the `into` direction: a manual
//! [`ConvertInto`] implementation, from which the bridge rule derives a
//! `TryConvertFrom` that can never fail.

use vstd::prelude::*;
use crate::ConvertInto;

verus! {

/// Sample source type: a single byte.
#[derive(Debug, PartialEq)]
pub struct A(pub u8);

/// Sample target type: a single byte.
#[derive(Debug, PartialEq)]
pub struct B(pub u8);

impl ConvertInto<B> for A {
    open spec fn convert_into_spec(self) -> B {
        B(self.0)
    }

    fn convert_into(self) -> (result: B)
        returns
            B(self.0),
    {
        B(self.0)
    }
}

} // verus!
