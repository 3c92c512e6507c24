use vstd::prelude::*;
use crate::fail::{Describe, Fail};

verus! {

/// A failure told in words of the caller's choosing, with the failure that
/// led to it kept as its cause.
pub struct Context<D, E> {
    pub context: D,
    pub cause: E,
}

impl<D, E> Context<D, E> {
    pub fn new(context: D, cause: E) -> (r: Context<D, E>)
        ensures
            r.context == context,
            r.cause == cause,
    {
        Context { context, cause }
    }

    /// The words that were attached.
    pub fn get_context(&self) -> (r: &D)
        ensures
            *r == self.context,
    {
        &self.context
    }

    /// The failure beneath the context.
    pub fn get_cause(&self) -> (r: &E)
        ensures
            *r == self.cause,
    {
        &self.cause
    }
}

impl<D: Describe, E> Describe for Context<D, E> {
    open spec fn text(&self) -> Seq<char> {
        self.context.text()
    }

    fn describe(&self) -> (s: String) {
        self.context.describe()
    }
}

impl<D: Describe + Send + Sync + 'static, E: Fail> Fail for Context<D, E> {
    open spec fn cause_texts(&self) -> Seq<Seq<char>> {
        seq![self.cause.text()] + self.cause.cause_texts()
    }

    fn causes(&self) -> (r: Vec<String>) {
        let mut r: Vec<String> = Vec::new();
        r.push(self.cause.describe());
        let mut rest = self.cause.causes();
        r.append(&mut rest);
        proof {
            assert(r.deep_view() =~= self.cause_texts());
        }
        r
    }
}

} // verus!
