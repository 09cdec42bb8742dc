//! The handler dispatch contract: every request-processing unit consumes a
//! mutable request envelope and produces a response, or a typed failure that
//! carries a best-effort fallback response.

use vstd::prelude::*;

use crate::method::Method;
use crate::request::{summary_text, LocalAddrView, Request};
use crate::resolve::{resolution_error_text, ResolutionErrorView};
use crate::response::Response;
use crate::url::UrlView;

verus! {

/// A failure inside a handler: an error description plus the best available
/// fallback response for it. Every failure carries a usable response, so the
/// dispatch loop never synthesizes one for a request that reached a handler.
pub struct HandlerFailure {
    /// A description of what went wrong, quoted in the dispatch log line.
    pub error: String,
    /// The response to write back in place of a successful one.
    pub response: Response,
}

/// The contract every request-processing unit implements: middleware wraps
/// an inner `Handler` and delegates to it through this same trait. The
/// dispatch loop calls `handle` at most once per request.
pub trait Handler {
    /// Produces a response for `req`, or a failure carrying a fallback
    /// response.
    fn handle(&self, req: &mut Request) -> Result<Response, HandlerFailure>;
}

/// The fixed response for a request that could not be constructed: status
/// 400 with no headers and an empty body.
pub fn bad_request() -> (r: Response)
    ensures
        r.status == 400,
        r.headers@ == Seq::<(Seq<char>, Seq<char>)>::empty(),
        r.body@ == Seq::<u8>::empty(),
{
    let mut r = Response::new();
    r.status = 400;
    r
}

/// The log line written when building the request envelope fails.
pub open spec fn creation_log_text(e: ResolutionErrorView) -> Seq<char> {
    "Error creating request:\n    "@ + resolution_error_text(e)
}

/// The log line written when a handler fails on a request with URL `u`,
/// method `m` and local address `a`.
pub open spec fn handling_log_text(u: UrlView, m: Method, a: LocalAddrView, error: Seq<char>) -> Seq<
    char,
> {
    "Error handling:\n"@ + summary_text(u, m, a) + "\nError was: "@ + error
}

/// How the dispatch step recovers from a handler's outcome `out` on a
/// request with URL `u`, method `m` and local address `a`: a success is
/// written back verbatim without logging; a failure is logged and its
/// carried fallback response is written back.
pub open spec fn recovery(
    r: (Response, Option<String>),
    u: UrlView,
    m: Method,
    a: LocalAddrView,
    out: Result<Response, HandlerFailure>,
) -> bool {
    match out {
        Ok(res) => r.0 == res && r.1 is None,
        Err(f) => r.0 == f.response && r.1 is Some && r.1->0@ == handling_log_text(
            u,
            m,
            a,
            f.error@,
        ),
    }
}

} // verus!
