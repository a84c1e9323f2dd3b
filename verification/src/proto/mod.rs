//! The values that flow through a handler tree: requests, responses and what
//! they are made of.

pub mod body;
pub mod codec;
pub mod extra;
pub mod http;
pub mod path;
pub mod request;
pub mod response;

pub use self::request::Request;
pub use self::response::Response;

pub use hyper::{header, Headers, Method, StatusCode, Uri};
