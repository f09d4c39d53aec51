//! A pair with a manual `ConvertFrom` implementation: the derived
//! `ConvertInto` agrees with it, the bridge wraps it without a failure path,
//! and a wrapper around the pair converts through it.

use core::convert::Infallible;

use convertible::samples::infallible::{A, B};
use convertible::samples::wrap::Wrap;
use convertible::{ConvertFrom, ConvertInto, TryConvertFrom};

#[test]
fn convert_from_implies_convert_into() {
    let actual: B = A(1).convert_into();
    assert_eq!(actual, B(1));
}

#[test]
fn bridge_accepts_derived_convert_into() {
    let actual: Result<B, Infallible> = B::try_convert_from(A(1));
    assert_eq!(actual, Ok(B(1)));
}

#[test]
fn convert_paths_agree() {
    let from_path: B = B::convert_from(A(5));
    let into_path: B = A(5).convert_into();
    assert_eq!(from_path, into_path);
}

#[test]
fn convert_container() {
    let actual: Wrap<B> = Wrap::convert_from(Wrap(A(1)));
    assert_eq!(actual, Wrap(B(1)));
}
