//! Arguments that may be given or left open.

use vstd::prelude::*;

verus! {

/// A value that stands for an optional `T`: a `T` itself, which is given, or
/// an `Option<T>`.
pub trait IntoOption<T>: Sized {
    /// The optional value that `self` stands for.
    spec fn option(self) -> Option<T>;

    /// The optional value that `self` stands for.
    fn into_option(self) -> (value: Option<T>)
        ensures
            value == self.option(),
    ;
}

impl<T> IntoOption<T> for T {
    open spec fn option(self) -> Option<T> {
        Some(self)
    }

    fn into_option(self) -> (value: Option<T>) {
        Some(self)
    }
}

impl<T> IntoOption<T> for Option<T> {
    open spec fn option(self) -> Option<T> {
        self
    }

    fn into_option(self) -> (value: Option<T>) {
        self
    }
}

} // verus!
