use vstd::prelude::*;
use crate::fail::{Describe, Fail};

verus! {

/// Presents a failure through the plain error interface: it says what the
/// wrapped failure says and walks the same causes.
pub struct Compat<E> {
    pub error: E,
}

impl<E> Compat<E> {
    pub fn new(error: E) -> (r: Compat<E>)
        ensures
            r.error == error,
    {
        Compat { error }
    }

    /// The wrapped failure.
    pub fn get_ref(&self) -> (r: &E)
        ensures
            *r == self.error,
    {
        &self.error
    }

    /// Unwraps the failure again.
    pub fn into_inner(self) -> (r: E)
        ensures
            r == self.error,
    {
        self.error
    }
}

impl<E: Fail> Describe for Compat<E> {
    open spec fn text(&self) -> Seq<char> {
        self.error.text()
    }

    fn describe(&self) -> (s: String) {
        self.error.describe()
    }
}

impl<E: Fail> Fail for Compat<E> {
    open spec fn cause_texts(&self) -> Seq<Seq<char>> {
        self.error.cause_texts()
    }

    fn causes(&self) -> (r: Vec<String>) {
        self.error.causes()
    }
}

} // verus!
