//! A small composition layer for HTTP APIs.
//!
//! Handlers are arranged in a tree and addressed by the segments of the
//! request path. A [`Namespace`](namespace::Namespace) hands a request to the
//! first of its handlers whose name is a prefix of the segments that are
//! left, and removes that prefix before it does so. Requests, responses and
//! errors are buffered values, so that a handler is an ordinary function
//! call, and the crate does no networking of its own: [`Writium::serve`]
//! turns what a transport has read into what it is to send.
//!
//! Every function of this crate is verified against its contract, except the
//! few items that describe `hyper`, `serde_json`, `serde_qs` and parts of
//! `std`. Each of those says in its documentation what is taken on trust;
//! they stand in [`proto::http`], [`proto::codec`], [`proto::extra`] and
//! [`api`].
// Verus reads the `verus!` blocks; rustc sees the imports of ghost code as unused.
#![allow(unused_imports)]

pub use hyper;

pub mod api;
pub mod error;
pub mod namespace;
pub mod prelude;
pub mod proto;
pub mod text;
pub mod writium;

pub use crate::writium::Writium;
