//! The handler: a name, and a way to answer requests.
use crate::error::Error;
use crate::proto::request::{Request, RequestView};
use crate::proto::response::Response;
use crate::text::slice_views;
use std::sync::Arc;
use vstd::prelude::*;

verus! {

/// What a handler answers: a response, or the error that stands for one.
pub type ApiResult = Result<Response, Error>;

/// A handler.
///
/// A handler has a name, which is a list of path segments, and answers the
/// requests that a [`Namespace`](crate::namespace::Namespace) hands to it.
/// The namespace does so where the segments left in the request begin with
/// the name, and takes the name off before it does. A handler with the empty
/// name is therefore handed every request that reaches it, and no handler
/// bound to the same namespace after it is ever reached.
///
/// What a handler does is described by [`Api::routes`], a relation between
/// the request as it comes, the request as it is left, and the answer. An
/// implementation that is verified chooses that relation and is held to it.
/// One that is not writes [`Api::name`] and [`Api::route`] alone: nothing is
/// then known of its name, and it may answer anything.
pub trait Api: 'static + Send + Sync {
    /// The name, as the segments it is made of. Unless an implementation
    /// says what it is, it is some list of segments of which nothing is
    /// known.
    open spec fn name_segs(&self) -> Seq<Seq<char>> {
        arbitrary()
    }

    /// Whether this handler may leave the request `pre` as `post` and answer
    /// `out` to it. Unless an implementation says otherwise, it may do
    /// anything.
    open spec fn routes(&self, pre: RequestView, post: RequestView, out: ApiResult) -> bool {
        true
    }

    /// The name.
    fn name(&self) -> (name: &[&str])
        ensures
            slice_views(name@) == self.name_segs(),
    ;

    /// Answers the request `req`, from which the name of this handler has
    /// been taken off already.
    fn route(&self, req: &mut Request) -> (out: ApiResult)
        ensures
            self.routes(old(req)@, final(req)@, out),
    ;
}

/// A handler that a namespace holds: boxed, so that handlers of all kinds
/// stand side by side, and shared, so that a tree can be copied and a
/// handler can stand in more than one tree.
pub type Shared = Arc<Box<dyn Api>>;

/// Trusted: `Box::new` and `Arc::new`, with the handler seen through its
/// trait from then on. The shared handler has the name of `api` and answers
/// as `api` does: a call through the trait object runs the methods of the
/// handler that was put in, which is what Rust's dynamic dispatch does and
/// what Verus does not state of it.
#[verifier::external_body]
pub(crate) fn share<A: Api>(api: A) -> (handle: Shared)
    ensures
        handle.name_segs() == api.name_segs(),
        forall|pre: RequestView, post: RequestView, out: ApiResult| #[trigger]
            handle.routes(pre, post, out) == api.routes(pre, post, out),
{
    Arc::new(Box::new(api))
}

} // verus!
