//! Pairs with manual `TryConvertFrom` implementations: the derived
//! `TryConvertInto` agrees with them and keeps their error type, and a
//! wrapper around a pair propagates the inner error unchanged.

use convertible::samples::fallible::{Narrow, TooWide, Wide, A, B};
use convertible::samples::try_wrap::TryWrap;
use convertible::{TryConvertFrom, TryConvertInto};

#[test]
fn try_convert_from_implies_try_convert_into() {
    let actual: Result<B, ()> = A(1).try_convert_into();
    assert_eq!(actual, Ok(B(1)));
}

#[test]
fn try_convert_paths_agree() {
    let from_path: Result<B, ()> = B::try_convert_from(A(5));
    let into_path: Result<B, ()> = A(5).try_convert_into();
    assert_eq!(from_path, into_path);
}

#[test]
fn narrowing_fits() {
    let actual: Result<Narrow, TooWide> = Narrow::try_convert_from(Wide(200));
    assert_eq!(actual, Ok(Narrow(200)));
}

#[test]
fn narrowing_reports_the_offending_value() {
    let actual: Result<Narrow, TooWide> = Wide(300).try_convert_into();
    assert_eq!(actual, Err(TooWide(300)));
}

#[test]
fn try_convert_container() {
    let actual: Result<TryWrap<B>, ()> = TryWrap::try_convert_from(TryWrap(A(1)));
    assert_eq!(actual, Ok(TryWrap(B(1))));
}

#[test]
fn try_container_wraps_success() {
    let actual: Result<TryWrap<Narrow>, TooWide> = TryWrap::try_convert_from(TryWrap(Wide(5)));
    assert_eq!(actual, Ok(TryWrap(Narrow(5))));
}

#[test]
fn try_container_propagates_the_inner_error() {
    let actual: Result<TryWrap<Narrow>, TooWide> = TryWrap::try_convert_from(TryWrap(Wide(300)));
    assert_eq!(actual, Err(TooWide(300)));
}
