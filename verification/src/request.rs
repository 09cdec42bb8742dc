//! The request envelope given to every handler: the resolved URL, transport
//! metadata, headers, method, version, a single-pass body and an extensible
//! store for data passed between middleware.

use vstd::prelude::*;
use vstd::string::StringExecFns;

use crate::extensions::{ext_len, Extensions};
use crate::headers::Headers;
use crate::iron::Protocol;
use crate::method::{method_name, Method};
use crate::num::{append_dec, dec_seq};
use crate::resolve::{resolution, resolution_error_text, resolve, ResolutionError};
use crate::url::{url_text, Url, UrlView};
use crate::version::Version;

verus! {

/// A request or response body, owned by its envelope and read in a single
/// pass: reading it empties it.
pub struct Body {
    data: Vec<u8>,
}

impl View for Body {
    type V = Seq<u8>;

    closed spec fn view(&self) -> Seq<u8> {
        self.data@
    }
}

impl Body {
    /// An empty body.
    pub fn empty() -> (r: Body)
        ensures
            r@ == Seq::<u8>::empty(),
    {
        Body { data: Vec::new() }
    }

    /// A body holding `data`.
    pub fn from_vec(data: Vec<u8>) -> (r: Body)
        ensures
            r@ == data@,
    {
        Body { data }
    }

    /// The number of bytes left to read.
    pub fn len(&self) -> (n: usize)
        ensures
            n == self@.len(),
    {
        self.data.len()
    }

    /// Reads the whole body. The read is single-pass: afterwards the body is
    /// empty, and a second read yields nothing.
    pub fn read_all(&mut self) -> (r: Vec<u8>)
        ensures
            r@ == old(self)@,
            final(self)@ == Seq::<u8>::empty(),
    {
        let mut out: Vec<u8> = Vec::new();
        core::mem::swap(&mut out, &mut self.data);
        out
    }
}

/// The local socket address of the transport connection a request arrived
/// on: either four IPv4 octets with a port, or an IPv6 address already
/// rendered as text (without brackets) with a port.
#[derive(Clone, Debug)]
pub enum LocalAddr {
    V4 { a: u8, b: u8, c: u8, d: u8, port: u16 },
    V6 { ip: String, port: u16 },
}

/// The mathematical image of a [`LocalAddr`].
pub enum LocalAddrView {
    V4 { a: u8, b: u8, c: u8, d: u8, port: u16 },
    V6 { ip: Seq<char>, port: u16 },
}

impl View for LocalAddr {
    type V = LocalAddrView;

    open spec fn view(&self) -> LocalAddrView {
        match self {
            LocalAddr::V4 { a, b, c, d, port } => LocalAddrView::V4 {
                a: *a,
                b: *b,
                c: *c,
                d: *d,
                port: *port,
            },
            LocalAddr::V6 { ip, port } => LocalAddrView::V6 { ip: ip@, port: *port },
        }
    }
}

/// The `host:port` rendering of a local address: IPv4 renders as
/// `a.b.c.d:port`, IPv6 as `[ip]:port`.
pub open spec fn addr_text(addr: LocalAddrView) -> Seq<char> {
    match addr {
        LocalAddrView::V4 { a, b, c, d, port } => dec_seq(a as nat) + "."@ + dec_seq(b as nat)
            + "."@ + dec_seq(c as nat) + "."@ + dec_seq(d as nat) + ":"@ + dec_seq(port as nat),
        LocalAddrView::V6 { ip, port } => "["@ + ip + "]:"@ + dec_seq(port as nat),
    }
}

/// Appends the `host:port` rendering of `addr` to `s`.
pub fn append_addr(s: &mut String, addr: &LocalAddr)
    ensures
        final(s)@ == old(s)@ + addr_text(addr@),
{
    match addr {
        LocalAddr::V4 { a, b, c, d, port } => {
            append_dec(s, *a as u16);
            s.append(".");
            append_dec(s, *b as u16);
            s.append(".");
            append_dec(s, *c as u16);
            s.append(".");
            append_dec(s, *d as u16);
            s.append(":");
            append_dec(s, *port);
            proof {
                assert(s@ =~= old(s)@ + addr_text(addr@));
            }
        },
        LocalAddr::V6 { ip, port } => {
            s.append("[");
            s.append(ip.as_str());
            s.append("]:");
            append_dec(s, *port);
            proof {
                assert(s@ =~= old(s)@ + addr_text(addr@));
            }
        },
    }
}

/// A raw transport-level request, as the external wire parser hands it over:
/// the request-line target as text, the method, version, headers, and the
/// body stream.
pub struct RawRequest {
    /// The request target from the request line.
    pub target: String,
    /// The request method.
    pub method: Method,
    /// The version of the HTTP protocol used.
    pub version: Version,
    /// The request headers.
    pub headers: Headers,
    /// The request body.
    pub body: Body,
}

/// The `Request` given to all middleware: the properties of the client's
/// request plus an extensible store for data communication between
/// middleware.
pub struct Request {
    /// The requested URL.
    pub url: Url,
    /// The local address of the request.
    pub local_addr: LocalAddr,
    /// The request headers.
    pub headers: Headers,
    /// The request body as a single-pass stream.
    pub body: Body,
    /// The request method.
    pub method: Method,
    /// Extensible storage for data passed between middleware.
    pub extensions: Extensions,
    /// The version of the HTTP protocol used.
    pub version: Version,
}

/// How a constructed request envelope relates to the raw inputs it was built
/// from: the URL is the resolved one, method, version, headers and body are
/// copied, and the extension store starts empty.
pub open spec fn constructed_from(
    r: Request,
    u: UrlView,
    method: Method,
    version: Version,
    headers: Seq<(Seq<char>, Seq<char>)>,
    body: Seq<u8>,
    addr: LocalAddrView,
) -> bool {
    &&& r.url@ == u
    &&& r.method == method
    &&& r.version == version
    &&& r.headers@ == headers
    &&& r.body@ == body
    &&& r.local_addr@ == addr
    &&& ext_len(r.extensions) == 0
}

/// The short description of a request: URL, method and local address.
pub open spec fn summary_text(u: UrlView, m: Method, a: LocalAddrView) -> Seq<char> {
    "Request {\n    url: "@ + url_text(u) + "\n    method: "@ + method_name(m)
        + "\n    local_addr: "@ + addr_text(a) + "\n}"@
}

impl Request {
    /// Create a request envelope from a raw transport request.
    ///
    /// Resolves the URL from the request target, the headers, the version
    /// and the local address; copies method, version and headers; takes
    /// ownership of the body; and starts with an empty extension store. On
    /// resolution failure, returns the descriptive error string instead.
    pub fn from_raw(raw: RawRequest, local_addr: LocalAddr, protocol: &Protocol) -> (r: Result<
        Request,
        String,
    >)
        ensures
            ({
                let res = resolution(
                    raw.target@,
                    raw.method,
                    raw.version,
                    raw.headers@,
                    local_addr@,
                    *protocol,
                );
                &&& res is Ok ==> r is Ok && constructed_from(
                    r->Ok_0,
                    res->Ok_0,
                    raw.method,
                    raw.version,
                    raw.headers@,
                    raw.body@,
                    local_addr@,
                )
                &&& res is Err ==> r is Err && r->Err_0@ == resolution_error_text(res->Err_0)
            }),
    {
        let outcome = resolve(
            raw.target.as_str(),
            &raw.method,
            &raw.version,
            &raw.headers,
            &local_addr,
            protocol,
        );
        match outcome {
            Ok(url) => Ok(
                Request {
                    url,
                    local_addr,
                    headers: raw.headers,
                    body: raw.body,
                    method: raw.method,
                    extensions: Extensions::new(),
                    version: raw.version,
                },
            ),
            Err(e) => Err(error_message(e)),
        }
    }

    /// A short description of this request: URL, method and local address.
    pub fn debug_summary(&self) -> (s: String)
        ensures
            s@ == summary_text(self.url@, self.method, self.local_addr@),
    {
        let mut s = String::from_str("Request {\n    url: ");
        let u = self.url.render();
        s.append(u.as_str());
        s.append("\n    method: ");
        let m = self.method.name();
        s.append(m.as_str());
        s.append("\n    local_addr: ");
        append_addr(&mut s, &self.local_addr);
        s.append("\n}");
        proof {
            assert(s@ =~= summary_text(self.url@, self.method, self.local_addr@));
        }
        s
    }

    /// A minimal request for tests: GET `http://www.rust-lang.org/` at
    /// HTTP/1.1 from local address 127.0.0.1:3000, with no headers and an
    /// empty body.
    pub fn stub() -> (r: Request)
        ensures
            r.url@ == (UrlView {
                scheme: "http"@,
                host: "www.rust-lang.org"@,
                port: None,
                path: "/"@,
                query: None,
                fragment: None,
            }),
            r.method == Method::Get,
            r.version == Version::Http11,
            r.headers@ == Seq::<(Seq<char>, Seq<char>)>::empty(),
            r.body@ == Seq::<u8>::empty(),
            r.local_addr@ == (LocalAddrView::V4 { a: 127, b: 0, c: 0, d: 1, port: 3000 }),
            ext_len(r.extensions) == 0,
    {
        Request {
            url: Url {
                scheme: String::from_str("http"),
                host: String::from_str("www.rust-lang.org"),
                port: None,
                path: String::from_str("/"),
                query: None,
                fragment: None,
            },
            local_addr: LocalAddr::V4 { a: 127, b: 0, c: 0, d: 1, port: 3000 },
            headers: Headers::new(),
            body: Body::empty(),
            method: Method::Get,
            extensions: Extensions::new(),
            version: Version::Http11,
        }
    }
}

/// Renders a resolution error as the descriptive string that
/// `Request::from_raw` returns.
fn error_message(e: ResolutionError) -> (s: String)
    ensures
        s@ == resolution_error_text(e@),
{
    match e {
        ResolutionError::MalformedUri(u) => {
            let mut s = String::from_str("Couldn't parse requested URL: ");
            s.append(u.as_str());
            s
        },
        ResolutionError::MissingHost => String::from_str("No host specified in request"),
        ResolutionError::UnsupportedTarget => String::from_str("Unsupported request URI"),
    }
}

/// Law: request construction is deterministic. Two envelopes constructed
/// from raw inputs with equal target, method, version, headers and protocol
/// agree on URL, method, version and headers (bodies are single-pass streams
/// and are not compared).
pub proof fn lemma_construction_deterministic(
    r1: Request,
    r2: Request,
    u: UrlView,
    m: Method,
    v: Version,
    h: Seq<(Seq<char>, Seq<char>)>,
    b1: Seq<u8>,
    b2: Seq<u8>,
    a: LocalAddrView,
)
    requires
        constructed_from(r1, u, m, v, h, b1, a),
        constructed_from(r2, u, m, v, h, b2, a),
    ensures
        r1.url@ == r2.url@,
        r1.method == r2.method,
        r1.version == r2.version,
        r1.headers@ == r2.headers@,
{
}

} // verus!
