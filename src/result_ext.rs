use vstd::prelude::*;
use crate::compat::Compat;
use crate::context::Context;
use crate::fail::{chain_texts, Describe, Fail};

verus! {

/// What `compat` makes of a result: a success as it was, an error wrapped.
pub open spec fn compat_outcome<T, E>(r: Result<T, E>) -> Result<T, Compat<E>> {
    match r {
        Ok(v) => Ok(v),
        Err(e) => Err(Compat { error: e }),
    }
}

/// What `context` makes of a result: a success as it was, an error beneath
/// the given context.
pub open spec fn context_outcome<T, E, D>(r: Result<T, E>, context: D) -> Result<T, Context<D, E>> {
    match r {
        Ok(v) => Ok(v),
        Err(e) => Err(Context { context, cause: e }),
    }
}

/// Whether `out` is what `with_context` may make of `r` with `f`: a success
/// as it was; an error beneath a context that `f` returned for that error.
pub open spec fn with_context_outcome<T, E, D, F: FnOnce(&E) -> D>(
    r: Result<T, E>,
    f: F,
    out: Result<T, Context<D, E>>,
) -> bool {
    match r {
        Ok(v) => out == Ok::<T, Context<D, E>>(v),
        Err(e) => match out {
            Ok(_) => false,
            Err(w) => w.cause == e && f.ensures((&e,), w.context),
        },
    }
}

/// Extension methods for results: wrap the error for the plain error
/// interface, or attach context to it. A success passes through untouched.
pub trait ResultExt<T, E>: Sized {
    /// The result these methods act on.
    spec fn outcome(self) -> Result<T, E>;

    /// Wraps the error in `Compat`.
    fn compat(self) -> (r: Result<T, Compat<E>>)
        ensures
            r == compat_outcome(self.outcome()),
    ;

    /// Wraps the error in a `Context` holding `context`; on success `context`
    /// is dropped unused.
    fn context<D: Describe + Send + Sync + 'static>(self, context: D) -> (r: Result<T, Context<D, E>>)
        ensures
            r == context_outcome(self.outcome(), context),
    ;

    /// Wraps the error in a `Context` computed by `f` from the error itself.
    /// `f` is called only on an error, once, before the error is moved.
    fn with_context<F: FnOnce(&E) -> D, D: Describe + Send + Sync + 'static>(self, f: F) -> (r:
        Result<T, Context<D, E>>)
        requires
            forall|e: E| self.outcome() == Err::<T, E>(e) ==> f.requires((&e,)),
        ensures
            with_context_outcome(self.outcome(), f, r),
    ;
}

impl<T, E: Fail> ResultExt<T, E> for Result<T, E> {
    open spec fn outcome(self) -> Result<T, E> {
        self
    }

    fn compat(self) -> (r: Result<T, Compat<E>>) {
        match self {
            Ok(v) => Ok(v),
            Err(e) => Err(Compat::new(e)),
        }
    }

    fn context<D: Describe + Send + Sync + 'static>(self, context: D) -> (r: Result<T, Context<D, E>>) {
        match self {
            Ok(v) => Ok(v),
            Err(e) => Err(Context::new(context, e)),
        }
    }

    fn with_context<F: FnOnce(&E) -> D, D: Describe + Send + Sync + 'static>(self, f: F) -> (r:
        Result<T, Context<D, E>>) {
        match self {
            Ok(v) => Ok(v),
            Err(e) => {
                let context = f(&e);
                Err(Context::new(context, e))
            },
        }
    }
}

/// A success comes out of every operation as it went in, whatever context or
/// function is given; the function need not be callable on anything.
pub proof fn lemma_success_passes_through<T, E, D, F: FnOnce(&E) -> D>(
    v: T,
    context: D,
    f: F,
    out: Result<T, Context<D, E>>,
)
    requires
        with_context_outcome(Ok::<T, E>(v), f, out),
    ensures
        compat_outcome(Ok::<T, E>(v)) == Ok::<T, Compat<E>>(v),
        context_outcome(Ok::<T, E>(v), context) == Ok::<T, Context<D, E>>(v),
        out == Ok::<T, Context<D, E>>(v),
{
}

/// Attaching context to an error keeps the error, unchanged, as the cause; the
/// new error says what the context says, and its narrative is the context's
/// text followed by the old error's narrative.
pub proof fn lemma_context_keeps_cause<T, E: Fail, D: Describe + Send + Sync + 'static>(
    e: E,
    context: D,
)
    ensures
        context_outcome(Err::<T, E>(e), context) is Err,
        context_outcome(Err::<T, E>(e), context)->Err_0.cause == e,
        context_outcome(Err::<T, E>(e), context)->Err_0.context == context,
        context_outcome(Err::<T, E>(e), context)->Err_0.text() == context.text(),
        chain_texts(&context_outcome(Err::<T, E>(e), context)->Err_0) == seq![context.text()]
            + chain_texts(&e),
{
    let w = context_outcome(Err::<T, E>(e), context)->Err_0;
    assert(chain_texts(&w) =~= seq![context.text()] + chain_texts(&e));
}

/// Computing context from an error keeps the error, unchanged, as the cause,
/// and the context is a value that the function returned for that error.
pub proof fn lemma_with_context_keeps_cause<T, E, D, F: FnOnce(&E) -> D>(
    e: E,
    f: F,
    out: Result<T, Context<D, E>>,
)
    requires
        with_context_outcome(Err::<T, E>(e), f, out),
    ensures
        out is Err,
        out->Err_0.cause == e,
        f.ensures((&e,), out->Err_0.context),
{
}

/// Computing context twice builds a two-level chain: the outer context comes
/// from the intermediate wrapper, whose context comes from the original error,
/// which lies innermost, unchanged.
pub proof fn lemma_with_context_chain<
    T,
    E: Fail,
    D1: Describe + Send + Sync + 'static,
    D2: Describe + Send + Sync + 'static,
    F1: FnOnce(&E) -> D1,
    F2: FnOnce(&Context<D1, E>) -> D2,
>(
    e: E,
    f1: F1,
    f2: F2,
    mid: Result<T, Context<D1, E>>,
    out: Result<T, Context<D2, Context<D1, E>>>,
)
    requires
        with_context_outcome(Err::<T, E>(e), f1, mid),
        with_context_outcome(mid, f2, out),
    ensures
        mid is Err,
        out is Err,
        out->Err_0.cause == mid->Err_0,
        out->Err_0.cause.cause == e,
        f1.ensures((&e,), out->Err_0.cause.context),
        f2.ensures((&mid->Err_0,), out->Err_0.context),
        chain_texts(&out->Err_0) == seq![out->Err_0.context.text(), out->Err_0.cause.context.text()]
            + chain_texts(&e),
{
    let w = out->Err_0;
    assert(chain_texts(&w) =~= seq![w.context.text(), w.cause.context.text()] + chain_texts(&e));
}

/// The compatible wrapper says exactly what the wrapped error says and walks
/// exactly its causes.
pub proof fn lemma_compat_is_transparent<T, E: Fail>(e: E)
    ensures
        compat_outcome(Err::<T, E>(e)) is Err,
        compat_outcome(Err::<T, E>(e))->Err_0.error == e,
        compat_outcome(Err::<T, E>(e))->Err_0.text() == e.text(),
        compat_outcome(Err::<T, E>(e))->Err_0.cause_texts() == e.cause_texts(),
        chain_texts(&compat_outcome(Err::<T, E>(e))->Err_0) == chain_texts(&e),
{
}

} // verus!
