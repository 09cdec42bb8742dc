//! The server bootstrap type: a handler plus its configuration, and the
//! per-connection dispatch step that turns a raw request into the response
//! to write back.

use vstd::prelude::*;
use vstd::string::StringExecFns;

use crate::handler::{
    bad_request,
    creation_log_text,
    handling_log_text,
    recovery,
    Handler,
    HandlerFailure,
};
use crate::request::{summary_text, LocalAddr, RawRequest, Request};
use crate::resolve::resolution;
use crate::response::Response;

verus! {

/// The primary entrance point: a `struct` to instantiate a new server.
///
/// `Iron` contains the `Handler` which takes a `Request` and produces a
/// `Response`.
pub struct Iron<H> {
    /// The handler used to create responses for client requests.
    pub handler: H,
    /// Server timeouts.
    pub timeouts: Timeouts,
    /// The number of request handling threads.
    ///
    /// Defaults to eight per available CPU.
    pub threads: usize,
}

/// A settings struct containing a set of timeouts which can be applied to a
/// server. Each duration is in milliseconds; `None` disables that timeout.
#[derive(Debug, PartialEq, Clone, Copy)]
pub struct Timeouts {
    /// The timeout for keep-alive connections, in milliseconds.
    ///
    /// Defaults to five seconds; `None` turns keep-alive off.
    pub keep_alive: Option<u64>,
    /// The timeout for reads on existing connections, in milliseconds.
    ///
    /// Defaults to thirty seconds.
    pub read: Option<u64>,
    /// The timeout for writes on existing connections, in milliseconds.
    ///
    /// Defaults to one second.
    pub write: Option<u64>,
}

impl Timeouts {
    /// The default configuration: keep-alive five seconds, read thirty
    /// seconds, write one second.
    pub open spec fn spec_default() -> Timeouts {
        Timeouts { keep_alive: Some(5000u64), read: Some(30000u64), write: Some(1000u64) }
    }
}

impl Default for Timeouts {
    fn default() -> (r: Self)
        ensures
            r == Timeouts::spec_default(),
    {
        Timeouts { keep_alive: Some(5000), read: Some(30000), write: Some(1000) }
    }
}

/// Protocol used to serve content: a closed choice between plaintext HTTP
/// and HTTP over SSL/TLS. It only picks the URI scheme embedded during URL
/// resolution; transport security itself is the listener's concern.
#[derive(Clone, Copy, PartialEq, Eq, Structural, Debug)]
pub enum Protocol {
    /// Plaintext HTTP/1.
    Http,
    /// HTTP/1 over SSL/TLS.
    Https,
}

impl Protocol {
    /// The name used for this protocol in a URI's scheme part.
    pub open spec fn scheme_text(self) -> Seq<char> {
        match self {
            Protocol::Http => "http"@,
            Protocol::Https => "https"@,
        }
    }

    /// Plaintext HTTP/1.
    pub fn http() -> (p: Protocol)
        ensures
            p == Protocol::Http,
    {
        Protocol::Http
    }

    /// HTTP/1 over SSL/TLS.
    pub fn https() -> (p: Protocol)
        ensures
            p == Protocol::Https,
    {
        Protocol::Https
    }

    /// Returns the name used for this protocol in a URI's scheme part.
    pub fn name(&self) -> (r: &'static str)
        ensures
            r@ == self.scheme_text(),
    {
        match self {
            Protocol::Http => "http",
            Protocol::Https => "https",
        }
    }
}

/// Relies on `num_cpus::get`: the number of available CPUs of the current
/// system, always at least 1.
#[verifier::external_body]
fn cpu_count() -> (n: usize)
    ensures
        1 <= n,
{
    num_cpus::get()
}

/// The default number of request handling threads for a machine with `cpus`
/// available CPUs: eight per CPU, capped so that the count fits in `usize`.
pub open spec fn spec_default_threads(cpus: nat) -> nat {
    if cpus <= usize::MAX as nat / 8 {
        8 * cpus
    } else {
        8 * (usize::MAX as nat / 8)
    }
}

/// The default thread count for `cpus` available CPUs, as an explicit
/// configuration-construction function so that tests can inject
/// deterministic values.
pub fn default_thread_count(cpus: usize) -> (t: usize)
    ensures
        t == spec_default_threads(cpus as nat),
{
    if cpus <= usize::MAX / 8 {
        8 * cpus
    } else {
        8 * (usize::MAX / 8)
    }
}

impl<H: Handler> Iron<H> {
    /// Instantiate a new instance of `Iron`, the base unit of the server,
    /// using the passed in `Handler`: default timeouts, and eight handling
    /// threads per available CPU.
    pub fn new(handler: H) -> (r: Iron<H>)
        ensures
            r.handler == handler,
            r.timeouts == Timeouts::spec_default(),
            exists|cpus: nat| 1 <= cpus && r.threads == spec_default_threads(cpus),
            8 <= r.threads,
    {
        let n = cpu_count();
        let threads = default_thread_count(n);
        proof {
            assert(1 <= n as nat && threads == spec_default_threads(n as nat));
        }
        Iron { handler, timeouts: Timeouts::default(), threads }
    }

    /// Handles one accepted connection's raw request: builds the request
    /// envelope, invokes the handler, and recovers from failure with the
    /// fallback response the failure carries. When the envelope itself
    /// cannot be built, no handler runs and a 400 response with an empty
    /// body is substituted. Returns the response to write back, and the log
    /// line for the failure if one occurred.
    pub fn dispatch(&self, raw: RawRequest, local_addr: LocalAddr, protocol: &Protocol) -> (r:
        (Response, Option<String>))
        ensures
            ({
                let res = resolution(
                    raw.target@,
                    raw.method,
                    raw.version,
                    raw.headers@,
                    local_addr@,
                    *protocol,
                );
                &&& res is Err ==> r.0.status == 400 && r.0.body@ == Seq::<u8>::empty() && r.1
                    is Some && r.1->0@ == creation_log_text(res->Err_0)
                &&& res is Ok ==> exists|out: Result<Response, HandlerFailure>|
                    recovery(r, res->Ok_0, raw.method, local_addr@, out)
            }),
    {
        let ghost gm = raw.method;
        let ghost ga = local_addr@;
        let ghost gres = resolution(
            raw.target@,
            raw.method,
            raw.version,
            raw.headers@,
            local_addr@,
            *protocol,
        );
        match Request::from_raw(raw, local_addr, protocol) {
            Ok(mut req) => {
                let ghost u = gres->Ok_0;
                let summary = req.debug_summary();
                assert(summary@ == summary_text(u, gm, ga));
                match self.handler.handle(&mut req) {
                    Ok(res) => {
                        let r = (res, None::<String>);
                        proof {
                            assert(recovery(
                                r,
                                u,
                                gm,
                                ga,
                                Result::<Response, HandlerFailure>::Ok(r.0),
                            ));
                        }
                        r
                    },
                    Err(f) => {
                        let ghost gf = f;
                        let mut log = String::from_str("Error handling:\n");
                        log.append(summary.as_str());
                        log.append("\nError was: ");
                        log.append(f.error.as_str());
                        proof {
                            assert(log@ =~= handling_log_text(u, gm, ga, gf.error@));
                        }
                        let r = (f.response, Some(log));
                        proof {
                            assert(recovery(
                                r,
                                u,
                                gm,
                                ga,
                                Result::<Response, HandlerFailure>::Err(gf),
                            ));
                        }
                        r
                    },
                }
            },
            Err(e) => {
                let mut log = String::from_str("Error creating request:\n    ");
                log.append(e.as_str());
                proof {
                    assert(log@ =~= creation_log_text(gres->Err_0));
                }
                (bad_request(), Some(log))
            },
        }
    }
}

} // verus!
