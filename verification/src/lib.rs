pub mod result_ext;

pub use result_ext::ResultTracingExt;
pub use result_ext::SpannedResultExt;
use tracing_error::SpanTrace;
use vstd::prelude::*;

verus! {

/// The capability an error value must offer before it can be wrapped: a
/// human-readable display text. `display_spec` is the text as a mathematical
/// value; `display` is the executable rendering, which must agree with it.
///
/// [`SpanErr`] deliberately does not implement this trait, so a wrapped error
/// cannot be wrapped a second time.
pub trait ErrorDisplay {
    /// The display text of this error, as a sequence of characters.
    /// Verified implementors override this; an implementor that keeps the
    /// default says nothing useful about its text, and nothing can then be
    /// proved of its display.
    open spec fn display_spec(&self) -> Seq<char> {
        Seq::empty()
    }

    /// Render the display text.
    fn display(&self) -> (r: String)
        ensures
            r@ == self.display_spec(),
    ;
}

/// A plain message is the simplest displayable error: its text is itself.
impl ErrorDisplay for String {
    open spec fn display_spec(&self) -> Seq<char> {
        self@
    }

    fn display(&self) -> String {
        self.clone()
    }
}

/// `tracing_error`'s opaque, immutable snapshot of the span stack that was
/// active at the moment it was captured.
#[verifier::external_type_specification]
#[verifier::external_body]
pub struct ExSpanTrace(SpanTrace);

/// Relies on `SpanTrace`'s `Clone`, which clones the handle to the same
/// captured span stack: the clone denotes the identical snapshot.
pub assume_specification[ <SpanTrace as Clone>::clone ](s: &SpanTrace) -> (r: SpanTrace)
    ensures
        r == *s,
;

/// The single capture point. Relies on `tracing_error::SpanTrace::capture`,
/// which snapshots the spans active on the calling thread at the moment of
/// the call and never fails. The snapshot depends on that ambient state, so
/// nothing can be promised of its contents.
#[verifier::external_body]
fn capture_span_trace() -> SpanTrace {
    SpanTrace::capture()
}

/// An error together with the [`SpanTrace`] captured when it was wrapped.
///
/// A value of this type is built by [`SpanErr::from`], which captures the
/// trace exactly once, or by
/// [`ResultTracingExt::in_current_span`](crate::ResultTracingExt::in_current_span),
/// which does the same on the failure branch of a `Result`. Afterwards only
/// the error can change, through [`SpanErr::map`]; the trace is carried
/// forward untouched.
///
/// `SpanErr` does not implement [`ErrorDisplay`] itself, so feeding a
/// `SpanErr` back into the wrapping operations is a compile-time error:
/// an error is wrapped once, never nested.
#[derive(Debug, Clone)]
pub struct SpanErr<T: ErrorDisplay> {
    pub error: T,
    pub span: SpanTrace,
}

impl<T: ErrorDisplay> SpanErr<T> {
    /// The wrapper's display text: exactly the inner error's own, with
    /// nothing added before or after.
    pub fn display(&self) -> (r: String)
        ensures
            r@ == self.error.display_spec(),
    {
        self.error.display()
    }

    /// Replace the inner error with `f` of it, keeping the captured span
    /// trace identical: no new capture takes place.
    pub fn map<U: ErrorDisplay>(self, f: impl FnOnce(T) -> U) -> (r: SpanErr<U>)
        requires
            call_requires(f, (self.error,)),
        ensures
            call_ensures(f, (self.error,), r.error),
            r.span == self.span,
    {
        SpanErr { error: f(self.error), span: self.span }
    }
}

impl<T: ErrorDisplay> From<T> for SpanErr<T> {
    /// Wrap an error, capturing the current span trace at this very call.
    fn from(error: T) -> (r: Self)
        ensures
            r.error == error,
    {
        SpanErr { error, span: capture_span_trace() }
    }
}

impl<T: ErrorDisplay> vstd::std_specs::convert::FromSpecImpl<T> for SpanErr<T> {
    open spec fn obeys_from_spec() -> bool {
        // The captured span trace depends on the ambient span stack, so the
        // conversion has no deterministic specification.
        false
    }

    open spec fn from_spec(t: T) -> Self {
        choose|r: SpanErr<T>| r.error == t
    }
}

/// Display preservation: a wrapper holding `e` displays exactly as `e` does.
/// Wrapping never alters the display text, since [`SpanErr::from`] stores the
/// error unchanged and [`SpanErr::display`] delegates to it.
pub proof fn lemma_display_preservation<T: ErrorDisplay>(e: T, w: SpanErr<T>)
    requires
        w.error == e,
    ensures
        w.error.display_spec() == e.display_spec(),
{
}

} // verus!
