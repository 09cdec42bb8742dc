//! URL resolution: normalizing a wire-level request target (absolute URI,
//! absolute path, authority or asterisk form) plus transport metadata into
//! one fully qualified URL.

use vstd::prelude::*;
use vstd::string::StrSliceExecFns;
use vstd::string::StringExecFns;

use crate::headers::{host_of, Headers};
use crate::iron::Protocol;
use crate::method::Method;
use crate::num::{append_dec, dec_seq};
use crate::request::{addr_text, append_addr, LocalAddr, LocalAddrView};
use crate::url::{parse_url, port_text, url_parse, Url, UrlView};
use crate::version::Version;

verus! {

/// The form of a request target on the wire.
#[derive(Clone, Copy, PartialEq, Eq, Structural, Debug)]
pub enum TargetForm {
    /// A full URI with a scheme, e.g. `http://example.com/a`.
    AbsoluteUri,
    /// A path starting with `/`.
    AbsolutePath,
    /// The single character `*`, used by some verbs.
    Asterisk,
    /// The authority form used by CONNECT.
    Authority,
    /// Anything else.
    Unknown,
}

/// Whether `c` is an ASCII letter.
pub open spec fn is_alpha(c: char) -> bool {
    65 <= c as int <= 90 || 97 <= c as int <= 122
}

/// Whether `c` may appear in a URI scheme: the first character must be a
/// letter, the rest letters, digits, `+`, `-` or `.`.
pub open spec fn scheme_char(c: char, first: bool) -> bool {
    if first {
        is_alpha(c)
    } else {
        is_alpha(c) || 48 <= c as int <= 57 || c == '+' || c == '-' || c == '.'
    }
}

/// Whether `t` starts with a URI scheme followed by a colon.
pub open spec fn has_scheme(t: Seq<char>) -> bool {
    exists|i: int|
        1 <= i < t.len() && t[i] == ':' && (forall|j: int| 0 <= j < i ==> scheme_char(t[j], j == 0))
}

/// The form of the request target `t` for a request with method `m`: the
/// target of a CONNECT is in authority form; `*` is the asterisk form; a
/// target starting with `/` is an absolute path; one starting with a scheme
/// is an absolute URI.
pub open spec fn classify(t: Seq<char>, m: Method) -> TargetForm {
    if m is Connect {
        TargetForm::Authority
    } else if t.len() == 1 && t[0] == '*' {
        TargetForm::Asterisk
    } else if t.len() > 0 && t[0] == '/' {
        TargetForm::AbsolutePath
    } else if has_scheme(t) {
        TargetForm::AbsoluteUri
    } else {
        TargetForm::Unknown
    }
}

/// Classifies the request target `t` as `classify` describes.
pub fn classify_target(t: &str, m: &Method) -> (f: TargetForm)
    ensures
        f == classify(t@, *m),
{
    if m.is_connect() {
        return TargetForm::Authority;
    }
    let n = t.unicode_len();
    if n == 1 && t.get_char(0) == '*' {
        return TargetForm::Asterisk;
    }
    if n > 0 && t.get_char(0) == '/' {
        return TargetForm::AbsolutePath;
    }
    if n == 0 {
        assert(!has_scheme(t@));
        return TargetForm::Unknown;
    }
    let c0 = t.get_char(0);
    let v0 = c0 as u32;
    if !(65 <= v0 && v0 <= 90 || 97 <= v0 && v0 <= 122) {
        proof {
            assert forall|i: int|
                !(1 <= i < t@.len() && t@[i] == ':' && (forall|j: int|
                    0 <= j < i ==> scheme_char(t@[j], j == 0))) by {
                if 1 <= i < t@.len() && t@[i] == ':' {
                    assert(!scheme_char(t@[0], true));
                }
            }
        }
        return TargetForm::Unknown;
    }
    let mut i: usize = 1;
    while i < n
        invariant
            1 <= i <= n,
            n == t@.len(),
            !(*m is Connect),
            scheme_char(t@[0], true),
            forall|j: int| 1 <= j < i ==> scheme_char(t@[j], false) && t@[j] != ':',
        decreases n - i,
    {
        let c = t.get_char(i);
        if c == ':' {
            proof {
                assert(forall|j: int| 0 <= j < i ==> scheme_char(t@[j], j == 0));
                assert(has_scheme(t@)) by {
                    assert(1 <= i < t@.len() && t@[i as int] == ':' && (forall|j: int|
                        0 <= j < i ==> scheme_char(t@[j], j == 0)));
                }
            }
            return TargetForm::AbsoluteUri;
        }
        let v = c as u32;
        let ok = (65 <= v && v <= 90) || (97 <= v && v <= 122) || (48 <= v && v <= 57) || v == 43
            || v == 45 || v == 46;
        if !ok {
            proof {
                assert(!scheme_char(t@[i as int], false));
                assert(t@[i as int] != ':');
                assert forall|p: int|
                    !(1 <= p < t@.len() && t@[p] == ':' && (forall|j: int|
                        0 <= j < p ==> scheme_char(t@[j], j == 0))) by {
                    if 1 <= p < t@.len() && t@[p] == ':' {
                        if p <= i {
                            assert(t@[p] != ':');
                        } else {
                            assert(!(forall|j: int| 0 <= j < p ==> scheme_char(t@[j], j == 0)))
                                by {
                                assert(!scheme_char(t@[i as int], i == 0));
                            }
                        }
                    }
                }
            }
            return TargetForm::Unknown;
        }
        i += 1;
    }
    proof {
        assert forall|p: int|
            !(1 <= p < t@.len() && t@[p] == ':' && (forall|j: int|
                0 <= j < p ==> scheme_char(t@[j], j == 0))) by {
            if 1 <= p < t@.len() {
                assert(t@[p] != ':');
            }
        }
    }
    TargetForm::Unknown
}

/// An error while turning a raw request target into a URL. Always
/// recoverable by the dispatch loop, which substitutes a 400 response; never
/// propagated to a handler.
#[derive(Clone, Debug)]
pub enum ResolutionError {
    /// The string could not be parsed as a URL; carries the offending
    /// string.
    MalformedUri(String),
    /// The request is at HTTP/1.1 or later and carries no Host header.
    MissingHost,
    /// The request target is in a form that cannot be resolved.
    UnsupportedTarget,
}

/// The mathematical image of a [`ResolutionError`].
pub enum ResolutionErrorView {
    MalformedUri(Seq<char>),
    MissingHost,
    UnsupportedTarget,
}

impl View for ResolutionError {
    type V = ResolutionErrorView;

    open spec fn view(&self) -> ResolutionErrorView {
        match self {
            ResolutionError::MalformedUri(s) => ResolutionErrorView::MalformedUri(s@),
            ResolutionError::MissingHost => ResolutionErrorView::MissingHost,
            ResolutionError::UnsupportedTarget => ResolutionErrorView::UnsupportedTarget,
        }
    }
}

/// The descriptive message for each resolution error.
pub open spec fn resolution_error_text(e: ResolutionErrorView) -> Seq<char> {
    match e {
        ResolutionErrorView::MalformedUri(s) => "Couldn't parse requested URL: "@ + s,
        ResolutionErrorView::MissingHost => "No host specified in request"@,
        ResolutionErrorView::UnsupportedTarget => "Unsupported request URI"@,
    }
}

/// Parsing the assembled string `s`: its URL on success, `MalformedUri` with
/// the offending string on failure.
pub open spec fn parse_outcome(s: Seq<char>) -> Result<UrlView, ResolutionErrorView> {
    match url_parse(s) {
        Some(u) => Ok(u),
        None => Err(ResolutionErrorView::MalformedUri(s)),
    }
}

/// The URL string assembled from a Host header: `scheme://host[:port]path`.
pub open spec fn assembled_with_host(
    proto: Protocol,
    hostname: Seq<char>,
    port: Option<u16>,
    path: Seq<char>,
) -> Seq<char> {
    proto.scheme_text() + "://"@ + hostname + port_text(port) + path
}

/// The URL string assembled from the local socket address:
/// `scheme://host:port path` with the address rendering of `addr_text`.
pub open spec fn assembled_with_addr(
    proto: Protocol,
    addr: LocalAddrView,
    path: Seq<char>,
) -> Seq<char> {
    proto.scheme_text() + "://"@ + addr_text(addr) + path
}

/// What resolving a request target yields:
/// an absolute URI is parsed directly; an absolute path is prefixed with the
/// Host header's authority when one is present, with the local address below
/// HTTP/1.1 otherwise, and is `MissingHost` from HTTP/1.1 on without a Host
/// header; every other form is `UnsupportedTarget`.
pub open spec fn resolution(
    target: Seq<char>,
    method: Method,
    version: Version,
    headers: Seq<(Seq<char>, Seq<char>)>,
    addr: LocalAddrView,
    proto: Protocol,
) -> Result<UrlView, ResolutionErrorView> {
    match classify(target, method) {
        TargetForm::AbsoluteUri => parse_outcome(target),
        TargetForm::AbsolutePath => match host_of(headers) {
            Some(hp) => parse_outcome(assembled_with_host(proto, hp.0, hp.1, target)),
            None => if version.spec_requires_host() {
                Err(ResolutionErrorView::MissingHost)
            } else {
                parse_outcome(assembled_with_addr(proto, addr, target))
            },
        },
        _ => Err(ResolutionErrorView::UnsupportedTarget),
    }
}

/// Whether the executable outcome `r` is the image of the specified outcome
/// `m`.
pub open spec fn resolution_matches(
    r: Result<Url, ResolutionError>,
    m: Result<UrlView, ResolutionErrorView>,
) -> bool {
    match r {
        Ok(u) => m is Ok && u@ == m->Ok_0,
        Err(e) => m is Err && e@ == m->Err_0,
    }
}

/// Resolves a request target into a fully qualified URL, as `resolution`
/// describes. Resolution is pure and synchronous, with no retries and no
/// side effects.
pub fn resolve(
    target: &str,
    method: &Method,
    version: &Version,
    headers: &Headers,
    local_addr: &LocalAddr,
    protocol: &Protocol,
) -> (r: Result<Url, ResolutionError>)
    ensures
        resolution_matches(
            r,
            resolution(target@, *method, *version, headers@, local_addr@, *protocol),
        ),
{
    match classify_target(target, method) {
        TargetForm::AbsoluteUri => match parse_url(target) {
            Some(u) => Ok(u),
            None => Err(ResolutionError::MalformedUri(String::from_str(target))),
        },
        TargetForm::AbsolutePath => match headers.host() {
            Some(hh) => {
                let mut s = String::from_str(protocol.name());
                s.append("://");
                s.append(hh.hostname.as_str());
                match hh.port {
                    Some(p) => {
                        s.append(":");
                        append_dec(&mut s, p);
                    },
                    None => {},
                }
                s.append(target);
                proof {
                    assert(s@ =~= assembled_with_host(*protocol, hh.hostname@, hh.port, target@));
                }
                match parse_url(s.as_str()) {
                    Some(u) => Ok(u),
                    None => Err(ResolutionError::MalformedUri(s)),
                }
            },
            None => {
                if version.requires_host() {
                    Err(ResolutionError::MissingHost)
                } else {
                    let mut s = String::from_str(protocol.name());
                    s.append("://");
                    append_addr(&mut s, local_addr);
                    s.append(target);
                    proof {
                        assert(s@ =~= assembled_with_addr(*protocol, local_addr@, target@));
                    }
                    match parse_url(s.as_str()) {
                        Some(u) => Ok(u),
                        None => Err(ResolutionError::MalformedUri(s)),
                    }
                }
            },
        },
        _ => Err(ResolutionError::UnsupportedTarget),
    }
}

/// Law: a request whose target is an absolute URI resolves to what parsing
/// that URI directly yields, for every version, every header set and every
/// local address — a Host header, if present, is ignored.
pub proof fn lemma_absolute_uri_ignores_context(
    target: Seq<char>,
    method: Method,
    v1: Version,
    v2: Version,
    h1: Seq<(Seq<char>, Seq<char>)>,
    h2: Seq<(Seq<char>, Seq<char>)>,
    a1: LocalAddrView,
    a2: LocalAddrView,
    proto: Protocol,
)
    requires
        classify(target, method) == TargetForm::AbsoluteUri,
    ensures
        resolution(target, method, v1, h1, a1, proto) == parse_outcome(target),
        resolution(target, method, v1, h1, a1, proto) == resolution(
            target,
            method,
            v2,
            h2,
            a2,
            proto,
        ),
{
}

/// Law: an absolute-path target with a Host header naming `hostname` and
/// `port` resolves to parsing `scheme://hostname:port` followed by the path,
/// verbatim.
pub proof fn lemma_absolute_path_with_host(
    target: Seq<char>,
    method: Method,
    version: Version,
    headers: Seq<(Seq<char>, Seq<char>)>,
    addr: LocalAddrView,
    proto: Protocol,
    hostname: Seq<char>,
    port: u16,
)
    requires
        classify(target, method) == TargetForm::AbsolutePath,
        host_of(headers) == Some((hostname, Some(port))),
    ensures
        resolution(target, method, version, headers, addr, proto) == parse_outcome(
            proto.scheme_text() + "://"@ + hostname + ":"@ + dec_seq(port as nat) + target,
        ),
{
    assert(assembled_with_host(proto, hostname, Some(port), target) =~= proto.scheme_text()
        + "://"@ + hostname + ":"@ + dec_seq(port as nat) + target);
}

/// Law: an absolute-path target with no Host header, below HTTP/1.1,
/// resolves to parsing `scheme://a.b.c.d:port` followed by the path, built
/// from the local IPv4 socket address.
pub proof fn lemma_absolute_path_local_fallback(
    target: Seq<char>,
    method: Method,
    version: Version,
    headers: Seq<(Seq<char>, Seq<char>)>,
    proto: Protocol,
    a: u8,
    b: u8,
    c: u8,
    d: u8,
    port: u16,
)
    requires
        classify(target, method) == TargetForm::AbsolutePath,
        host_of(headers) is None,
        !version.spec_requires_host(),
    ensures
        resolution(
            target,
            method,
            version,
            headers,
            LocalAddrView::V4 { a, b, c, d, port },
            proto,
        ) == parse_outcome(
            proto.scheme_text() + "://"@ + dec_seq(a as nat) + "."@ + dec_seq(b as nat) + "."@
                + dec_seq(c as nat) + "."@ + dec_seq(d as nat) + ":"@ + dec_seq(port as nat)
                + target,
        ),
{
    let addr = LocalAddrView::V4 { a, b, c, d, port };
    assert(assembled_with_addr(proto, addr, target) =~= proto.scheme_text() + "://"@ + dec_seq(
        a as nat,
    ) + "."@ + dec_seq(b as nat) + "."@ + dec_seq(c as nat) + "."@ + dec_seq(d as nat) + ":"@
        + dec_seq(port as nat) + target);
}

/// Law: an absolute-path target with no Host header, at HTTP/1.1 or later,
/// fails to resolve with `MissingHost`.
pub proof fn lemma_missing_host(
    target: Seq<char>,
    method: Method,
    version: Version,
    headers: Seq<(Seq<char>, Seq<char>)>,
    addr: LocalAddrView,
    proto: Protocol,
)
    requires
        classify(target, method) == TargetForm::AbsolutePath,
        host_of(headers) is None,
        version.spec_requires_host(),
    ensures
        resolution(target, method, version, headers, addr, proto) == Result::<
            UrlView,
            ResolutionErrorView,
        >::Err(ResolutionErrorView::MissingHost),
{
}

/// Law: an asterisk-form target never resolves; the outcome is
/// `UnsupportedTarget`, whatever the version, headers and address.
pub proof fn lemma_asterisk_unsupported(
    target: Seq<char>,
    method: Method,
    version: Version,
    headers: Seq<(Seq<char>, Seq<char>)>,
    addr: LocalAddrView,
    proto: Protocol,
)
    requires
        !(method is Connect),
        target.len() == 1,
        target[0] == '*',
    ensures
        resolution(target, method, version, headers, addr, proto) == Result::<
            UrlView,
            ResolutionErrorView,
        >::Err(ResolutionErrorView::UnsupportedTarget),
{
}

} // verus!

