//! Small concrete types and generic wrappers that exercise the conversion
//! capabilities and their derivation rules, one pair per module so that each
//! manual implementation coexists with the capabilities derived from it.

pub mod fallible;
pub mod infallible;
pub mod into_only;
pub mod try_wrap;
pub mod wrap;
