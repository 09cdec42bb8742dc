//! The HTTP method of a request.

use vstd::prelude::*;
use vstd::string::StringExecFns;

verus! {

/// The HTTP method of a request. Methods outside the standard set are
/// carried verbatim in `Extension`.
#[derive(Clone, PartialEq, Eq, Debug)]
pub enum Method {
    Get,
    Head,
    Post,
    Put,
    Delete,
    Connect,
    Options,
    Trace,
    Patch,
    Extension(String),
}

/// The wire name of a method.
pub open spec fn method_name(m: Method) -> Seq<char> {
    match m {
        Method::Get => "GET"@,
        Method::Head => "HEAD"@,
        Method::Post => "POST"@,
        Method::Put => "PUT"@,
        Method::Delete => "DELETE"@,
        Method::Connect => "CONNECT"@,
        Method::Options => "OPTIONS"@,
        Method::Trace => "TRACE"@,
        Method::Patch => "PATCH"@,
        Method::Extension(s) => s@,
    }
}

impl Method {
    /// The wire name of this method, as a fresh string.
    pub fn name(&self) -> (r: String)
        ensures
            r@ == method_name(*self),
    {
        match self {
            Method::Get => String::from_str("GET"),
            Method::Head => String::from_str("HEAD"),
            Method::Post => String::from_str("POST"),
            Method::Put => String::from_str("PUT"),
            Method::Delete => String::from_str("DELETE"),
            Method::Connect => String::from_str("CONNECT"),
            Method::Options => String::from_str("OPTIONS"),
            Method::Trace => String::from_str("TRACE"),
            Method::Patch => String::from_str("PATCH"),
            Method::Extension(s) => s.clone(),
        }
    }

    /// Whether this is the CONNECT method, whose request target is in
    /// authority form.
    pub fn is_connect(&self) -> (b: bool)
        ensures
            b == (*self is Connect),
    {
        match self {
            Method::Connect => true,
            _ => false,
        }
    }
}

} // verus!
