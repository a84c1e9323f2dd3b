//! What a handler is written with, in one import.

pub use crate::api::{Api, ApiResult};
pub use crate::error::{Cause, Error};
pub use crate::namespace::Namespace;
pub use crate::proto::{header, Headers, Method, Request, Response, StatusCode, Uri};
