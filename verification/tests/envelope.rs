//! Tests for request envelope construction, the single-pass body, and the
//! response envelope defaults.

use iron::headers::Headers;
use iron::iron::Protocol;
use iron::method::Method;
use iron::request::{Body, LocalAddr, RawRequest, Request};
use iron::response::Response;
use iron::version::Version;

fn sample_raw() -> RawRequest {
    let mut headers = Headers::new();
    headers.append("Host", "example.com:8080");
    headers.append("Accept", "text/html");
    RawRequest {
        target: String::from("/it"),
        method: Method::Post,
        version: Version::Http11,
        headers,
        body: Body::from_vec(vec![1, 2, 3]),
    }
}

fn local4() -> LocalAddr {
    LocalAddr::V4 {
        a: 127,
        b: 0,
        c: 0,
        d: 1,
        port: 3000,
    }
}

#[test]
fn construction_twice_from_equal_raw_inputs_agrees() {
    let r1 = Request::from_raw(sample_raw(), local4(), &Protocol::Http).expect("resolves");
    let r2 = Request::from_raw(sample_raw(), local4(), &Protocol::Http).expect("resolves");
    assert_eq!(r1.url.render(), r2.url.render());
    assert_eq!(r1.method, r2.method);
    assert_eq!(r1.version, r2.version);
    assert_eq!(r1.headers.len(), r2.headers.len());
    assert_eq!(r1.headers.get("host"), r2.headers.get("host"));
    assert_eq!(r1.headers.get("accept"), r2.headers.get("accept"));
}

#[test]
fn from_raw_copies_every_component() {
    let mut req = Request::from_raw(sample_raw(), local4(), &Protocol::Http).expect("resolves");
    assert_eq!(req.url.render(), "http://example.com:8080/it");
    assert_eq!(req.method, Method::Post);
    assert_eq!(req.version, Version::Http11);
    assert_eq!(req.headers.get("accept"), Some(String::from("text/html")));
    assert_eq!(req.body.read_all(), vec![1, 2, 3]);
    assert_eq!(req.extensions.get::<u32>(), None);
}

#[test]
fn body_is_read_in_a_single_pass() {
    let mut body = Body::from_vec(vec![9, 8, 7]);
    assert_eq!(body.len(), 3);
    assert_eq!(body.read_all(), vec![9, 8, 7]);
    assert_eq!(body.len(), 0);
    assert_eq!(body.read_all(), Vec::<u8>::new());
}

#[test]
fn stub_request_has_documented_defaults() {
    let req = Request::stub();
    assert_eq!(req.url.render(), "http://www.rust-lang.org/");
    assert_eq!(req.method, Method::Get);
    assert_eq!(req.version, Version::Http11);
    assert_eq!(req.headers.len(), 0);
}

#[test]
fn debug_summary_names_url_method_and_address() {
    let req = Request::from_raw(sample_raw(), local4(), &Protocol::Http).expect("resolves");
    let s = req.debug_summary();
    assert!(s.contains("http://example.com:8080/it"));
    assert!(s.contains("POST"));
    assert!(s.contains("127.0.0.1:3000"));
}

#[test]
fn response_defaults_to_ok_and_empty_body() {
    let mut r = Response::new();
    assert_eq!(r.status, 200);
    assert_eq!(r.headers.len(), 0);
    assert_eq!(r.body.read_all(), Vec::<u8>::new());
}

#[test]
fn response_with_status_keeps_status_and_body() {
    let mut r = Response::with_status(503, vec![b'n', b'o']);
    assert_eq!(r.status, 503);
    assert_eq!(r.body.read_all(), vec![b'n', b'o']);
}

#[test]
fn request_extensions_are_per_request() {
    let mut req = Request::from_raw(sample_raw(), local4(), &Protocol::Http).expect("resolves");
    req.extensions.set(41u32);
    assert_eq!(req.extensions.get::<u32>(), Some(&41));
    let other = Request::from_raw(sample_raw(), local4(), &Protocol::Http).expect("resolves");
    assert_eq!(other.extensions.get::<u32>(), None);
}
