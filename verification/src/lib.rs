//! Conversion capabilities between types, in two fallibility flavours, with
//! derivation rules that grant the dual capability automatically.
//!
//! A type declares how it is produced from another by implementing
//! [`ConvertFrom`] (infallible) or [`TryConvertFrom`] (fallible). The opposite
//! direction, [`ConvertInto`] and [`TryConvertInto`], is then derived by a
//! blanket rule, and every infallible conversion is also usable through the
//! fallible interface with an uninhabited error type.
//!
//! Each capability carries a `spec` function giving the mathematical value of
//! the conversion, and each method's contract ties the executable result to
//! that function, so the derivation rules are proved, not merely trusted.

use vstd::prelude::*;
use core::convert::Infallible;

pub mod samples;

verus! {

/// Capability: a value of `Self` can be produced from a value of `T`,
/// without a failure path.
///
/// Implemented by hand for each (source, target) pair; the reverse-direction
/// capability [`ConvertInto`] is derived from it automatically.
pub trait ConvertFrom<T>: Sized {
    /// The value that `convert_from` produces.
    spec fn convert_from_spec(value: T) -> Self;

    /// Produce a `Self` from `value`.
    #[must_use]
    fn convert_from(value: T) -> (result: Self)
        ensures
            result == Self::convert_from_spec(value),
    ;
}

/// Capability: a value of `Self` can be turned into a value of `T`,
/// without a failure path.
///
/// Normally obtained through the blanket rule from [`ConvertFrom`], never
/// implemented directly for a pair that already has one, since two
/// implementations of the same capability for one pair cannot coexist.
pub trait ConvertInto<T>: Sized {
    /// The value that `convert_into` produces.
    spec fn convert_into_spec(self) -> T;

    /// Turn `self` into a `T`.
    #[must_use]
    fn convert_into(self) -> (result: T)
        ensures
            result == self.convert_into_spec(),
    ;
}

/// Capability: producing a `Self` from a value of `T` may fail with
/// `Self::Error`.
///
/// Implemented by hand for each (source, target) pair; the reverse-direction
/// capability [`TryConvertInto`] is derived from it automatically, and every
/// pair with an infallible [`ConvertInto`] gains this capability with the
/// uninhabited error type [`Infallible`].
pub trait TryConvertFrom<T>: Sized {
    /// The error a failed conversion reports.
    type Error;

    /// The result that `try_convert_from` produces.
    spec fn try_convert_from_spec(value: T) -> Result<Self, Self::Error>;

    /// Produce a `Self` from `value`, or report why it cannot be done.
    fn try_convert_from(value: T) -> (result: Result<Self, Self::Error>)
        ensures
            result == Self::try_convert_from_spec(value),
    ;
}

/// Capability: turning a value of `Self` into a `T` may fail with
/// `Self::Error`.
///
/// Normally obtained through the blanket rule from [`TryConvertFrom`], which
/// carries the error type over unchanged.
pub trait TryConvertInto<T>: Sized {
    /// The error a failed conversion reports.
    type Error;

    /// The result that `try_convert_into` produces.
    spec fn try_convert_into_spec(self) -> Result<T, Self::Error>;

    /// Turn `self` into a `T`, or report why it cannot be done.
    fn try_convert_into(self) -> (result: Result<T, Self::Error>)
        ensures
            result == self.try_convert_into_spec(),
    ;
}

// Derivation rule: ConvertFrom implies ConvertInto.
impl<T, U: ConvertFrom<T>> ConvertInto<U> for T {
    open spec fn convert_into_spec(self) -> U {
        U::convert_from_spec(self)
    }

    fn convert_into(self) -> (result: U)
        returns
            U::convert_from_spec(self),
    {
        U::convert_from(self)
    }
}

// Derivation rule: TryConvertFrom implies TryConvertInto, with the same
// error type.
impl<T, U: TryConvertFrom<T>> TryConvertInto<U> for T {
    type Error = U::Error;

    open spec fn try_convert_into_spec(self) -> Result<U, U::Error> {
        U::try_convert_from_spec(self)
    }

    fn try_convert_into(self) -> (result: Result<U, U::Error>)
        returns
            U::try_convert_from_spec(self),
    {
        U::try_convert_from(self)
    }
}

// Derivation rule: ConvertInto implies TryConvertFrom, with an uninhabited
// error type, so the fallible interface accepts infallible conversions and a
// failure can never be observed.
impl<T, U: ConvertInto<T>> TryConvertFrom<U> for T {
    type Error = Infallible;

    open spec fn try_convert_from_spec(value: U) -> Result<T, Infallible> {
        Ok(value.convert_into_spec())
    }

    fn try_convert_from(value: U) -> (result: Result<T, Infallible>)
        returns
            Ok::<T, Infallible>(value.convert_into_spec()),
    {
        Ok(value.convert_into())
    }
}

/// Duality: the derived `ConvertInto` agrees with the manual `ConvertFrom`
/// it came from, on every value.
pub proof fn lemma_convert_duality<T, U: ConvertFrom<T>>(value: T)
    ensures
        <T as ConvertInto<U>>::convert_into_spec(value) == U::convert_from_spec(value),
{
}

/// Fallible duality: the derived `TryConvertInto` agrees with the manual
/// `TryConvertFrom` it came from, on every value, and its error type is the
/// same (the two sides of the equality share it).
pub proof fn lemma_try_convert_duality<T, U: TryConvertFrom<T>>(value: T)
    ensures
        <T as TryConvertInto<U>>::try_convert_into_spec(value) == U::try_convert_from_spec(value),
{
}

/// Bridge totality: the `TryConvertFrom` derived from an infallible
/// `ConvertInto` always succeeds, wrapping exactly the value the infallible
/// conversion produces.
pub proof fn lemma_bridge_totality<T, U: ConvertInto<T>>(value: U)
    ensures
        <T as TryConvertFrom<U>>::try_convert_from_spec(value)
            == Ok::<T, Infallible>(value.convert_into_spec()),
        <T as TryConvertFrom<U>>::try_convert_from_spec(value) is Ok,
{
}

} // verus!
