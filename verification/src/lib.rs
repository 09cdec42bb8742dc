//! Core of an HTTP middleware framework.
//!
//! The crate normalizes a wire-level request (target, method, version,
//! headers, body) into a fully resolved [`request::Request`] envelope, offers
//! a type-indexed [`extensions::Extensions`] store for data exchange between
//! middleware, and defines the [`handler::Handler`] dispatch contract that
//! turns handler failures into well-formed responses.

pub mod extensions;
pub mod handler;
pub mod headers;
pub mod iron;
pub mod method;
pub mod num;
pub mod request;
pub mod resolve;
pub mod response;
pub mod url;
pub mod version;

pub use crate::extensions::Extensions;
pub use crate::handler::{Handler, HandlerFailure};
pub use crate::headers::Headers;
pub use crate::iron::{Iron, Protocol, Timeouts};
pub use crate::method::Method;
pub use crate::request::{Body, LocalAddr, RawRequest, Request};
pub use crate::resolve::ResolutionError;
pub use crate::response::Response;
pub use crate::url::Url;
pub use crate::version::Version;
