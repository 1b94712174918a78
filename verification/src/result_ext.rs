use crate::ErrorDisplay;
use crate::SpanErr;
use vstd::prelude::*;

verus! {

/// Wrap-on-failure: chain `.in_current_span()` after any fallible call to
/// capture the active span trace on the failure branch. The success branch
/// passes through untouched.
pub trait ResultTracingExt<T, E: ErrorDisplay>: Sized {
    /// The plain success-or-failure value this combinator acts on.
    spec fn plain(self) -> Result<T, E>;

    /// On `Ok`, the value passes through unchanged and nothing is captured.
    /// On `Err`, the error is wrapped via [`SpanErr::from`], which captures
    /// the current span trace.
    fn in_current_span(self) -> (r: Result<T, SpanErr<E>>)
        ensures
            self.plain() is Ok ==> r == Ok::<T, SpanErr<E>>(self.plain()->Ok_0),
            self.plain() is Err ==> r is Err && r->Err_0.error == self.plain()->Err_0,
    ;
}

impl<T, E: ErrorDisplay> ResultTracingExt<T, E> for Result<T, E> {
    open spec fn plain(self) -> Result<T, E> {
        self
    }

    fn in_current_span(self) -> (r: Result<T, SpanErr<E>>) {
        match self {
            Ok(v) => Ok(v),
            Err(e) => Err(SpanErr::from(e)),
        }
    }
}

/// Transform-on-failure: chain `.spanned_map_err(f)` after a wrapping call to
/// replace the inner error of an already-wrapped failure. The success branch
/// passes through untouched, and the captured span trace is never replaced.
pub trait SpannedResultExt<T, E: ErrorDisplay>: Sized {
    /// The success-or-wrapped-failure value this combinator acts on.
    spec fn spanned(self) -> Result<T, SpanErr<E>>;

    /// On `Ok`, the value passes through unchanged. On `Err`, the inner
    /// error is replaced by `f` of it via [`SpanErr::map`], and the span
    /// trace captured at wrapping time is carried forward identically.
    fn spanned_map_err<E2: ErrorDisplay, F: FnOnce(E) -> E2>(self, f: F) -> (r: Result<
        T,
        SpanErr<E2>,
    >)
        requires
            self.spanned() is Err ==> call_requires(f, (self.spanned()->Err_0.error,)),
        ensures
            self.spanned() is Ok ==> r == Ok::<T, SpanErr<E2>>(self.spanned()->Ok_0),
            self.spanned() is Err ==> r is Err && call_ensures(
                f,
                (self.spanned()->Err_0.error,),
                r->Err_0.error,
            ) && r->Err_0.span == self.spanned()->Err_0.span,
    ;
}

impl<T, E: ErrorDisplay> SpannedResultExt<T, E> for Result<T, SpanErr<E>> {
    open spec fn spanned(self) -> Result<T, SpanErr<E>> {
        self
    }

    fn spanned_map_err<E2: ErrorDisplay, F: FnOnce(E) -> E2>(self, f: F) -> (r: Result<
        T,
        SpanErr<E2>,
    >) {
        match self {
            Ok(v) => Ok(v),
            Err(w) => Err(w.map(f)),
        }
    }
}

} // verus!
