//! The resolved URL of a request: scheme, host, optional port, path,
//! optional query and fragment. Parsing a string into these components is
//! delegated to the `url` crate.

use vstd::prelude::*;
use vstd::string::StringExecFns;

use crate::num::{append_dec, dec_seq};

verus! {

/// A fully resolved URL, component by component.
#[derive(Clone, Debug)]
pub struct Url {
    /// The scheme, always present and lower-case.
    pub scheme: String,
    /// The host.
    pub host: String,
    /// The port, when one is given and it is not the scheme's default.
    pub port: Option<u16>,
    /// The path, never empty for http and https URLs.
    pub path: String,
    /// The query, without the leading `?`.
    pub query: Option<String>,
    /// The fragment, without the leading `#`.
    pub fragment: Option<String>,
}

/// The mathematical image of a [`Url`].
pub struct UrlView {
    pub scheme: Seq<char>,
    pub host: Seq<char>,
    pub port: Option<u16>,
    pub path: Seq<char>,
    pub query: Option<Seq<char>>,
    pub fragment: Option<Seq<char>>,
}

impl View for Url {
    type V = UrlView;

    open spec fn view(&self) -> UrlView {
        UrlView {
            scheme: self.scheme@,
            host: self.host@,
            port: self.port,
            path: self.path@,
            query: match self.query {
                Some(q) => Some(q@),
                None => None,
            },
            fragment: match self.fragment {
                Some(f) => Some(f@),
                None => None,
            },
        }
    }
}

/// What parsing `s` as an absolute URL with a host yields, if anything: the
/// components that the `url` crate's parser produces for `s`.
pub uninterp spec fn url_parse(s: Seq<char>) -> Option<UrlView>;

/// Relies on `url::Url::parse` and the component accessors `scheme`,
/// `host_str`, `port`, `path`, `query` and `fragment` of `url::Url`: parsing
/// depends on the input string alone; `host_str` is `None` exactly for URLs
/// without a host, and `port` is `None` when the port is absent or is the
/// scheme's default.
#[verifier::external_body]
pub fn parse_url(s: &str) -> (r: Option<Url>)
    ensures
        r is Some <==> url_parse(s@) is Some,
        r is Some ==> r->0@ == url_parse(s@)->0,
{
    let u = ::url::Url::parse(s).ok()?;
    let host = u.host_str()?.to_string();
    Some(Url {
        scheme: u.scheme().to_string(),
        host,
        port: u.port(),
        path: u.path().to_string(),
        query: u.query().map(|q| q.to_string()),
        fragment: u.fragment().map(|f| f.to_string()),
    })
}

/// The `:port` suffix of a rendered URL or address, empty when no port is
/// given.
pub open spec fn port_text(port: Option<u16>) -> Seq<char> {
    match port {
        Some(p) => ":"@ + dec_seq(p as nat),
        None => Seq::<char>::empty(),
    }
}

/// The rendering of a URL from its components:
/// `scheme://host[:port]path[?query][#fragment]`.
pub open spec fn url_text(u: UrlView) -> Seq<char> {
    u.scheme + "://"@ + u.host + port_text(u.port) + u.path + (match u.query {
        Some(q) => "?"@ + q,
        None => Seq::<char>::empty(),
    }) + (match u.fragment {
        Some(f) => "#"@ + f,
        None => Seq::<char>::empty(),
    })
}

impl Url {
    /// Renders this URL back into a string, component-equal to the parsed
    /// input though not necessarily byte-identical to it.
    pub fn render(&self) -> (s: String)
        ensures
            s@ == url_text(self@),
    {
        let mut s = self.scheme.clone();
        s.append("://");
        s.append(self.host.as_str());
        match &self.port {
            Some(p) => {
                s.append(":");
                append_dec(&mut s, *p);
            },
            None => {},
        }
        s.append(self.path.as_str());
        match &self.query {
            Some(q) => {
                s.append("?");
                s.append(q.as_str());
            },
            None => {},
        }
        match &self.fragment {
            Some(f) => {
                s.append("#");
                s.append(f.as_str());
            },
            None => {},
        }
        proof {
            assert(s@ =~= url_text(self@));
        }
        s
    }
}

} // verus!
