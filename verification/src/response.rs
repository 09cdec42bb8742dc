//! The response envelope: a status code, headers, a body and an extensible
//! store for middleware annotations.

use vstd::prelude::*;

use crate::extensions::{ext_len, Extensions};
use crate::headers::Headers;
use crate::request::Body;

verus! {

/// The response that a handler produces and the server writes back.
pub struct Response {
    /// The HTTP status code.
    pub status: u16,
    /// The response headers.
    pub headers: Headers,
    /// The response body.
    pub body: Body,
    /// Extensible storage for data passed between middleware.
    pub extensions: Extensions,
}

impl Response {
    /// A fresh response: status 200, no headers, empty body.
    pub fn new() -> (r: Response)
        ensures
            r.status == 200,
            r.headers@ == Seq::<(Seq<char>, Seq<char>)>::empty(),
            r.body@ == Seq::<u8>::empty(),
            ext_len(r.extensions) == 0,
    {
        Response {
            status: 200,
            headers: Headers::new(),
            body: Body::empty(),
            extensions: Extensions::new(),
        }
    }

    /// A response with the given status and body bytes, and no headers.
    pub fn with_status(status: u16, body: Vec<u8>) -> (r: Response)
        ensures
            r.status == status,
            r.headers@ == Seq::<(Seq<char>, Seq<char>)>::empty(),
            r.body@ == body@,
            ext_len(r.extensions) == 0,
    {
        Response {
            status,
            headers: Headers::new(),
            body: Body::from_vec(body),
            extensions: Extensions::new(),
        }
    }
}

} // verus!
