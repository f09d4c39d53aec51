//! A pair with a manual `ConvertInto` implementation: the bridge derives a
//! `TryConvertFrom` from it whose error type is uninhabited, so the fallible
//! interface can never report a failure.

use core::convert::Infallible;

use convertible::samples::into_only::{A, B};
use convertible::TryConvertFrom;

#[test]
fn convert_into_implies_try_convert_from() {
    let actual: Result<B, Infallible> = B::try_convert_from(A(1));
    assert_eq!(actual, Ok(B(1)));
}
