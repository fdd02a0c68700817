//! Uniform conversion of fallible values into `Result`.
//!
//! `Result` and `Option` both carry a value or a reason for its absence;
//! `IntoResult` brings either into one shape, with the absent case an
//! optional error: an `Option`'s `None` carries no reason.

use vstd::prelude::*;

verus! {

/// Whatever can be read as a value or an optional error.
pub trait IntoResult: Sized {
    type Output;

    type Error;

    /// What `into_result` returns.
    spec fn spec_into_result(self) -> Result<Self::Output, Option<Self::Error>>;

    /// Turns this value into a `Result` whose error is optional.
    fn into_result(self) -> (r: Result<Self::Output, Option<Self::Error>>)
        ensures
            r == self.spec_into_result(),
    ;
}

impl<T, E> IntoResult for Result<T, E> {
    type Output = T;

    type Error = E;

    open spec fn spec_into_result(self) -> Result<T, Option<E>> {
        match self {
            Ok(t) => Ok(t),
            Err(e) => Err(Some(e)),
        }
    }

    fn into_result(self) -> (r: Result<T, Option<E>>) {
        match self {
            Ok(t) => Ok(t),
            Err(e) => Err(Some(e)),
        }
    }
}

impl<T> IntoResult for Option<T> {
    type Output = T;

    type Error = ();

    open spec fn spec_into_result(self) -> Result<T, Option<()>> {
        match self {
            Some(t) => Ok(t),
            None => Err(None),
        }
    }

    fn into_result(self) -> (r: Result<T, Option<()>>) {
        match self {
            Some(t) => Ok(t),
            None => Err(None),
        }
    }
}

} // verus!
