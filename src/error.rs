use vstd::prelude::*;
use crate::fail::{Describe, Fail};

verus! {

/// The top-level failure: any failure's text and cause chain, held as text,
/// so that failures of different types can travel as one type.
pub struct Error {
    message: String,
    causes: Vec<String>,
}

impl Error {
    /// A failure that is only a message, with no cause beneath it.
    pub fn msg(message: String) -> (r: Error)
        ensures
            r.text() == message@,
            r.cause_texts() == Seq::<Seq<char>>::empty(),
    {
        Error { message, causes: Vec::new() }
    }

    /// Takes in any failure, keeping what it says and what its causes say.
    pub fn from_fail<F: Fail>(failure: F) -> (r: Error)
        ensures
            r.text() == failure.text(),
            r.cause_texts() == failure.cause_texts(),
    {
        Error { message: failure.describe(), causes: failure.causes() }
    }
}

impl Describe for Error {
    closed spec fn text(&self) -> Seq<char> {
        self.message@
    }

    fn describe(&self) -> (s: String) {
        self.message.clone()
    }
}

impl Fail for Error {
    closed spec fn cause_texts(&self) -> Seq<Seq<char>> {
        self.causes.deep_view()
    }

    fn causes(&self) -> (r: Vec<String>) {
        let mut r: Vec<String> = Vec::new();
        let mut i: usize = 0;
        while i < self.causes.len()
            invariant
                i <= self.causes.len(),
                r@.len() == i,
                forall|j: int| 0 <= j < i ==> #[trigger] r@[j]@ == self.causes@[j]@,
            decreases self.causes.len() - i,
        {
            r.push(self.causes[i].clone());
            i += 1;
        }
        proof {
            assert(r.deep_view() =~= self.causes.deep_view());
        }
        r
    }
}

} // verus!
