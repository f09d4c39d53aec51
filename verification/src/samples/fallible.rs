//! Pairs with manual [`TryConvertFrom`] implementations: one that always
//! succeeds, and a narrowing one whose error carries the value that did not
//! fit, so that error propagation can be observed.

use vstd::prelude::*;
use crate::TryConvertFrom;

verus! {

/// Sample source type: a single byte.
#[derive(Debug, PartialEq)]
pub struct A(pub u8);

/// Sample target type: a single byte.
#[derive(Debug, PartialEq)]
pub struct B(pub u8);

impl TryConvertFrom<A> for B {
    type Error = ();

    open spec fn try_convert_from_spec(value: A) -> Result<B, ()> {
        Ok(B(value.0))
    }

    fn try_convert_from(value: A) -> (result: Result<B, ()>)
        ensures
            result == Ok::<B, ()>(B(value.0)),
    {
        Ok(B(value.0))
    }
}

/// A value wider than a byte.
#[derive(Debug, PartialEq)]
pub struct Wide(pub u16);

/// A value that fits in a byte.
#[derive(Debug, PartialEq)]
pub struct Narrow(pub u8);

/// Error of narrowing a [`Wide`] that does not fit in a [`Narrow`]; it
/// carries the offending value.
#[derive(Debug, PartialEq)]
pub struct TooWide(pub u16);

impl TryConvertFrom<Wide> for Narrow {
    type Error = TooWide;

    open spec fn try_convert_from_spec(value: Wide) -> Result<Narrow, TooWide> {
        if value.0 <= 255 {
            Ok(Narrow(value.0 as u8))
        } else {
            Err(TooWide(value.0))
        }
    }

    fn try_convert_from(value: Wide) -> (result: Result<Narrow, TooWide>)
        ensures
            value.0 <= 255 ==> result == Ok::<Narrow, TooWide>(Narrow(value.0 as u8)),
            value.0 > 255 ==> result == Err::<Narrow, TooWide>(TooWide(value.0)),
    {
        if value.0 <= 255 {
            Ok(Narrow(value.0 as u8))
        } else {
            Err(TooWide(value.0))
        }
    }
}

} // verus!
