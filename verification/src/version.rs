//! The HTTP protocol version of a request.

use vstd::prelude::*;

verus! {

/// The version of the HTTP protocol a request was made with.
#[derive(Clone, Copy, PartialEq, Eq, Structural, Debug)]
pub enum Version {
    /// HTTP/0.9
    Http09,
    /// HTTP/1.0
    Http10,
    /// HTTP/1.1
    Http11,
    /// HTTP/2
    Http2,
    /// HTTP/3
    Http3,
}

impl Version {
    /// A rank that orders the versions chronologically.
    pub open spec fn number(self) -> int {
        match self {
            Version::Http09 => 9,
            Version::Http10 => 10,
            Version::Http11 => 11,
            Version::Http2 => 20,
            Version::Http3 => 30,
        }
    }

    /// Whether a request at this version must carry a Host header
    /// (mandatory from HTTP/1.1 on).
    pub open spec fn spec_requires_host(self) -> bool {
        self.number() >= 11
    }

    /// Whether a request at this version must carry a Host header.
    pub fn requires_host(&self) -> (b: bool)
        ensures
            b == self.spec_requires_host(),
    {
        match self {
            Version::Http09 => false,
            Version::Http10 => false,
            Version::Http11 => true,
            Version::Http2 => true,
            Version::Http3 => true,
        }
    }
}

} // verus!
