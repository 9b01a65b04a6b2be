//! An addition to [`Result`].
use vstd::prelude::*;

verus! {

/// Ways to get a plain value out of a [`Result`].
pub trait ResultExt<T, E>: Sized {
    /// The result that the value stands for.
    spec fn as_result(self) -> Result<T, E>;

    /// Maps a `Result<T, E>` to `E` by applying a function to a contained
    /// [`Ok`] value, or returning the contained [`Err`] value.
    fn map_or_unwrap_err<F>(self, f: F) -> (result: E) where F: FnOnce(T) -> E
        requires
            self.as_result() matches Ok(value) ==> call_requires(f, (value,)),
        ensures
            match self.as_result() {
                Ok(value) => call_ensures(f, (value,), result),
                Err(error) => result == error,
            },
    ;
}

impl<T, E> ResultExt<T, E> for Result<T, E> {
    open spec fn as_result(self) -> Result<T, E> {
        self
    }

    fn map_or_unwrap_err<F>(self, f: F) -> (result: E) where F: FnOnce(T) -> E
        ensures
            match self {
                Ok(value) => call_ensures(f, (value,), result),
                Err(error) => result == error,
            },
    {
        match self {
            Ok(value) => f(value),
            Err(error) => error,
        }
    }
}

} // verus!
