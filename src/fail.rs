use vstd::prelude::*;

verus! {

/// A value that can be shown to a person as text.
pub trait Describe: Sized {
    /// The text that `describe` produces.
    spec fn text(&self) -> Seq<char>;

    fn describe(&self) -> (s: String)
        ensures
            s@ == self.text(),
    ;
}

impl Describe for String {
    open spec fn text(&self) -> Seq<char> {
        self@
    }

    fn describe(&self) -> (s: String) {
        self.clone()
    }
}

impl Describe for &'static str {
    open spec fn text(&self) -> Seq<char> {
        (*self)@
    }

    fn describe(&self) -> (s: String) {
        (*self).to_owned()
    }
}

/// An error that can say what went wrong and what caused it.
///
/// A failure's story is its own text followed by the texts of its causes,
/// nearest cause first: the cause chain.
pub trait Fail: Describe + Send + Sync + 'static {
    /// The texts of the causes beneath this failure, nearest cause first.
    spec fn cause_texts(&self) -> Seq<Seq<char>>;

    /// Walks the cause chain below this failure and returns each cause's text.
    fn causes(&self) -> (r: Vec<String>)
        ensures
            r.deep_view() == self.cause_texts(),
    ;
}

/// The full narrative of a failure: its own text, then its causes' texts.
pub open spec fn chain_texts<E: Fail>(e: &E) -> Seq<Seq<char>> {
    seq![e.text()] + e.cause_texts()
}

} // verus!
