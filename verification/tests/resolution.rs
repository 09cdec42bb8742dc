//! Tests for URL resolution across target forms, versions and header sets.

use iron::headers::Headers;
use iron::iron::Protocol;
use iron::method::Method;
use iron::request::{Body, LocalAddr, RawRequest, Request};
use iron::resolve::{resolve, ResolutionError};
use iron::version::Version;

fn local4() -> LocalAddr {
    LocalAddr::V4 {
        a: 127,
        b: 0,
        c: 0,
        d: 1,
        port: 3000,
    }
}

#[test]
fn absolute_uri_target_parses_directly() {
    let mut headers = Headers::new();
    // A Host header is ignored for absolute-URI targets.
    headers.append("Host", "ignored.example:9999");
    let target = "http://example.com/a/b?q=1#frag";
    let r = resolve(
        target,
        &Method::Get,
        &Version::Http11,
        &headers,
        &local4(),
        &Protocol::Http,
    )
    .expect("absolute URI must resolve");
    let direct = url::Url::parse(target).expect("the same URI parses directly");
    assert_eq!(r.scheme, direct.scheme());
    assert_eq!(r.host.as_str(), direct.host_str().unwrap());
    assert_eq!(r.port, direct.port());
    assert_eq!(r.path, direct.path());
    assert_eq!(r.query.as_deref(), direct.query());
    assert_eq!(r.fragment.as_deref(), direct.fragment());
}

#[test]
fn absolute_path_with_host_and_port() {
    let mut headers = Headers::new();
    headers.append("Host", "example.com:8080");
    let r = resolve(
        "/over/there",
        &Method::Get,
        &Version::Http11,
        &headers,
        &local4(),
        &Protocol::Http,
    )
    .expect("host header must resolve");
    assert_eq!(r.render(), "http://example.com:8080/over/there");
}

#[test]
fn absolute_path_with_host_without_port() {
    let mut headers = Headers::new();
    headers.append("Host", "example.com");
    let r = resolve(
        "/p",
        &Method::Get,
        &Version::Http10,
        &headers,
        &local4(),
        &Protocol::Http,
    )
    .expect("host header must resolve");
    assert_eq!(r.render(), "http://example.com/p");
}

#[test]
fn host_header_name_is_case_insensitive() {
    let mut headers = Headers::new();
    headers.append("HOST", "example.com:8080");
    let r = resolve(
        "/x",
        &Method::Get,
        &Version::Http11,
        &headers,
        &local4(),
        &Protocol::Http,
    )
    .expect("upper-case Host header must be found");
    assert_eq!(r.render(), "http://example.com:8080/x");
}

#[test]
fn absolute_path_http10_falls_back_to_local_address() {
    let headers = Headers::new();
    let r = resolve(
        "/index.html",
        &Method::Get,
        &Version::Http10,
        &headers,
        &local4(),
        &Protocol::Http,
    )
    .expect("pre-1.1 requests fall back to the local address");
    assert_eq!(r.render(), "http://127.0.0.1:3000/index.html");
}

#[test]
fn absolute_path_ipv6_fallback_brackets_the_address() {
    let headers = Headers::new();
    let addr = LocalAddr::V6 {
        ip: String::from("::1"),
        port: 3000,
    };
    let r = resolve(
        "/p",
        &Method::Get,
        &Version::Http10,
        &headers,
        &addr,
        &Protocol::Http,
    )
    .expect("IPv6 fallback must resolve");
    assert_eq!(r.render(), "http://[::1]:3000/p");
}

#[test]
fn absolute_path_http11_without_host_is_missing_host() {
    let headers = Headers::new();
    let r = resolve(
        "/p",
        &Method::Get,
        &Version::Http11,
        &headers,
        &local4(),
        &Protocol::Http,
    );
    match r {
        Err(ResolutionError::MissingHost) => {}
        other => panic!("expected MissingHost, got {:?}", other),
    }
}

#[test]
fn https_protocol_picks_https_scheme() {
    let mut headers = Headers::new();
    headers.append("host", "example.com");
    let r = resolve(
        "/s",
        &Method::Get,
        &Version::Http11,
        &headers,
        &local4(),
        &Protocol::Https,
    )
    .expect("host header must resolve");
    assert_eq!(r.render(), "https://example.com/s");
}

#[test]
fn asterisk_target_is_unsupported() {
    let headers = Headers::new();
    let r = resolve(
        "*",
        &Method::Options,
        &Version::Http11,
        &headers,
        &local4(),
        &Protocol::Http,
    );
    match r {
        Err(ResolutionError::UnsupportedTarget) => {}
        other => panic!("expected UnsupportedTarget, got {:?}", other),
    }
}

#[test]
fn connect_authority_target_is_unsupported() {
    let headers = Headers::new();
    let r = resolve(
        "example.com:443",
        &Method::Connect,
        &Version::Http11,
        &headers,
        &local4(),
        &Protocol::Http,
    );
    match r {
        Err(ResolutionError::UnsupportedTarget) => {}
        other => panic!("expected UnsupportedTarget, got {:?}", other),
    }
}

#[test]
fn malformed_absolute_uri_is_malformed() {
    let headers = Headers::new();
    let r = resolve(
        "http://",
        &Method::Get,
        &Version::Http11,
        &headers,
        &local4(),
        &Protocol::Http,
    );
    match r {
        Err(ResolutionError::MalformedUri(s)) => assert_eq!(s, "http://"),
        other => panic!("expected MalformedUri, got {:?}", other),
    }
}

#[test]
fn malformed_assembled_url_carries_offending_string() {
    let mut headers = Headers::new();
    headers.append("Host", "exa mple");
    let r = resolve(
        "/p",
        &Method::Get,
        &Version::Http11,
        &headers,
        &local4(),
        &Protocol::Http,
    );
    match r {
        Err(ResolutionError::MalformedUri(s)) => assert_eq!(s, "http://exa mple/p"),
        other => panic!("expected MalformedUri, got {:?}", other),
    }
}

#[test]
fn default_port_is_elided_component_equal() {
    let mut headers = Headers::new();
    headers.append("Host", "example.com:80");
    let r = resolve(
        "/p",
        &Method::Get,
        &Version::Http11,
        &headers,
        &local4(),
        &Protocol::Http,
    )
    .expect("host header must resolve");
    // Port 80 is http's default, so the URL type treats it as absent; the
    // rendering is component-equal, not byte-identical.
    assert_eq!(r.port, None);
    assert_eq!(r.render(), "http://example.com/p");
}

#[test]
fn from_raw_missing_host_error_string() {
    let raw = RawRequest {
        target: String::from("/p"),
        method: Method::Get,
        version: Version::Http11,
        headers: Headers::new(),
        body: Body::empty(),
    };
    let r = Request::from_raw(raw, local4(), &Protocol::Http);
    match r {
        Err(e) => assert_eq!(e, "No host specified in request"),
        Ok(_) => panic!("expected an error"),
    }
}

#[test]
fn from_raw_malformed_error_string() {
    let raw = RawRequest {
        target: String::from("http://"),
        method: Method::Get,
        version: Version::Http11,
        headers: Headers::new(),
        body: Body::empty(),
    };
    let r = Request::from_raw(raw, local4(), &Protocol::Http);
    match r {
        Err(e) => assert_eq!(e, "Couldn't parse requested URL: http://"),
        Ok(_) => panic!("expected an error"),
    }
}

#[test]
fn ipv6_host_header_keeps_bracketed_host_and_port() {
    let mut headers = Headers::new();
    headers.append("Host", "[::1]:8080");
    let r = resolve(
        "/p",
        &Method::Get,
        &Version::Http11,
        &headers,
        &local4(),
        &Protocol::Http,
    )
    .expect("bracketed IPv6 host must resolve");
    let direct = url::Url::parse("http://[::1]:8080/p").expect("the assembled string parses");
    assert_eq!(r.host.as_str(), direct.host_str().unwrap());
    assert_eq!(r.port, direct.port());
    assert_eq!(r.path, "/p");
}

#[test]
fn duplicate_header_lookup_returns_the_first_entry() {
    let mut headers = Headers::new();
    headers.append("X-Tag", "first");
    headers.append("x-tag", "second");
    assert_eq!(headers.get("X-TAG"), Some(String::from("first")));
}

#[test]
fn render_keeps_query_and_fragment() {
    let headers = Headers::new();
    let r = resolve(
        "https://u.example:8443/a?b=c#d",
        &Method::Get,
        &Version::Http11,
        &headers,
        &local4(),
        &Protocol::Https,
    )
    .expect("absolute URI must resolve");
    assert_eq!(r.render(), "https://u.example:8443/a?b=c#d");
}
