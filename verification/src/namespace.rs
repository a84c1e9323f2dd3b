//! The namespace: a handler that routes to the handlers bound to it.
//!
//! A namespace asks its handlers in the order in which they were bound, and
//! hands the request to the first whose name the remaining path segments
//! begin with, after taking that name off. It answers what that handler
//! answers. Where no handler has such a name, it answers that the API was not
//! found and leaves the request as it was.
use crate::api::{share, Api, ApiResult, Shared};
use crate::error::Error;
use crate::proto::request::{begins_with, Request, RequestView};
use crate::text::slice_views;
use vstd::prelude::*;

verus! {

/// The place of the first of `names` that the segments `segs` begin with, or
/// the number of names where they begin with none.
pub open spec fn first_match(names: Seq<Seq<Seq<char>>>, segs: Seq<Seq<char>>) -> int
    decreases names.len(),
{
    if names.len() == 0 {
        0
    } else if begins_with(segs, names[0]) {
        0
    } else {
        1 + first_match(names.drop_first(), segs)
    }
}

/// [`first_match`] is the least place of a name that the segments begin
/// with: the name at that place is such a name, and no name before it is.
pub proof fn lemma_first_match(names: Seq<Seq<Seq<char>>>, segs: Seq<Seq<char>>)
    ensures
        0 <= first_match(names, segs) <= names.len(),
        first_match(names, segs) < names.len() ==> begins_with(
            segs,
            names[first_match(names, segs)],
        ),
        forall|j: int| 0 <= j < first_match(names, segs) ==> !begins_with(segs, names[j]),
    decreases names.len(),
{
    if names.len() > 0 && !begins_with(segs, names[0]) {
        let rest = names.drop_first();
        lemma_first_match(rest, segs);
        assert forall|j: int| 0 <= j < first_match(names, segs) implies !begins_with(
            segs,
            names[j],
        ) by {
            if j > 0 {
                assert(names[j] == rest[j - 1]);
            }
        }
    }
}

/// A place whose name the segments begin with, and before which no name is
/// such a name, is the place that [`first_match`] gives.
pub proof fn lemma_first_match_is(names: Seq<Seq<Seq<char>>>, segs: Seq<Seq<char>>, i: int)
    requires
        0 <= i <= names.len(),
        i < names.len() ==> begins_with(segs, names[i]),
        forall|j: int| 0 <= j < i ==> !begins_with(segs, names[j]),
    ensures
        first_match(names, segs) == i,
{
    lemma_first_match(names, segs);
}

/// Of two names that the segments both begin with, the later one is never
/// the one chosen: binding order decides.
pub proof fn lemma_earlier_handler_wins(
    names: Seq<Seq<Seq<char>>>,
    segs: Seq<Seq<char>>,
    earlier: int,
    later: int,
)
    requires
        0 <= earlier < later < names.len(),
        begins_with(segs, names[earlier]),
        begins_with(segs, names[later]),
    ensures
        first_match(names, segs) <= earlier,
        first_match(names, segs) != later,
{
    lemma_first_match(names, segs);
}

/// The empty name is a name that all segments begin with, so a handler with
/// the empty name is chosen unless one before it is, and none after it ever
/// is.
pub proof fn lemma_empty_name_stops_routing(
    names: Seq<Seq<Seq<char>>>,
    segs: Seq<Seq<char>>,
    fuse: int,
)
    requires
        0 <= fuse < names.len(),
        names[fuse].len() == 0,
    ensures
        begins_with(segs, names[fuse]),
        first_match(names, segs) <= fuse,
{
    assert(segs.take(0) =~= names[fuse]);
    lemma_first_match(names, segs);
}

/// Binding order decides: where the segments of a request begin with the
/// names of two handlers, the request never goes to the later one, and it
/// goes to the earlier one unless a handler bound before that has such a
/// name too.
pub proof fn lemma_binding_order_decides(
    ns: Namespace,
    pre: RequestView,
    post: RequestView,
    out: ApiResult,
    earlier: int,
    later: int,
)
    requires
        0 <= earlier < later < ns.handlers().len(),
        pre.begins_with(ns.handlers()[earlier].name_segs()),
        pre.begins_with(ns.handlers()[later].name_segs()),
    ensures
        ns.chosen(pre.path_segs) <= earlier,
        ns.chosen(pre.path_segs) != later,
        (forall|j: int| 0 <= j < earlier ==> !pre.begins_with(ns.handlers()[j].name_segs()))
            ==> ns.routes(pre, post, out) == ns.handlers()[earlier].routes(
            pre.without_first(ns.handlers()[earlier].name_segs().len()),
            post,
            out,
        ),
{
    let names = ns.handler_names();
    lemma_earlier_handler_wins(names, pre.path_segs, earlier, later);
    if forall|j: int| 0 <= j < earlier ==> !pre.begins_with(ns.handlers()[j].name_segs()) {
        lemma_first_match_is(names, pre.path_segs, earlier);
    }
}

/// A request whose segments begin with the name of no handler is answered
/// with the error of [`gen_api_not_found`] and left as it was, whatever its
/// segments are, and also where there are none.
pub proof fn lemma_unmatched_is_not_found(
    ns: Namespace,
    pre: RequestView,
    post: RequestView,
    out: ApiResult,
)
    requires
        forall|j: int|
            0 <= j < ns.handlers().len() ==> !pre.begins_with(ns.handlers()[j].name_segs()),
        ns.routes(pre, post, out),
    ensures
        post == pre,
        out matches Err(error) && error@.is_plain(404, "Unable to find the requested API."@),
{
    let names = ns.handler_names();
    lemma_first_match_is(names, pre.path_segs, names.len() as int);
}

/// A handler with the empty name that is bound first is handed every
/// request, as it is, and the handlers bound after it are never reached.
pub proof fn lemma_fuse_takes_all(
    ns: Namespace,
    pre: RequestView,
    post: RequestView,
    out: ApiResult,
)
    requires
        ns.handlers().len() >= 1,
        ns.handlers()[0].name_segs().len() == 0,
    ensures
        ns.chosen(pre.path_segs) == 0,
        ns.routes(pre, post, out) == ns.handlers()[0].routes(pre, post, out),
{
    let names = ns.handler_names();
    lemma_empty_name_stops_routing(names, pre.path_segs, 0);
    assert(pre.path_segs.skip(0) =~= pre.path_segs);
}

/// The answer of a namespace that found no handler for a request.
pub fn gen_api_not_found() -> (out: ApiResult)
    ensures
        out matches Err(error) && error@.is_plain(404, "Unable to find the requested API."@),
{
    Err(Error::not_found("Unable to find the requested API."))
}

/// A handler that holds handlers and routes to them by their names.
///
/// Its own name is what a namespace above it looks for; the handlers bound
/// to it never see that name in the request.
#[derive(Clone)]
pub struct Namespace {
    name: &'static [&'static str],
    apis: Vec<Shared>,
}

impl Namespace {
    /// The handlers that are bound, in the order in which they were bound.
    pub closed spec fn handlers(&self) -> Seq<Shared> {
        self.apis@
    }

    /// The names of the handlers that are bound, in that order.
    pub open spec fn handler_names(&self) -> Seq<Seq<Seq<char>>> {
        Seq::new(self.handlers().len(), |i: int| self.handlers()[i].name_segs())
    }

    /// The place of the handler that this namespace hands a request with the
    /// segments `segs` to, or the number of handlers where it hands the
    /// request to none.
    pub open spec fn chosen(&self, segs: Seq<Seq<char>>) -> int {
        first_match(self.handler_names(), segs)
    }

    /// Whether `after` is `before` with the handler `api` bound after those
    /// that `before` holds.
    pub open spec fn binds<A: Api>(before: Namespace, api: A, after: Namespace) -> bool {
        &&& after.name_segs() == before.name_segs()
        &&& after.handlers().len() == before.handlers().len() + 1
        &&& after.handlers().drop_last() == before.handlers()
        &&& after.handlers().last().name_segs() == api.name_segs()
        &&& forall|pre: RequestView, post: RequestView, out: ApiResult| #[trigger]
            after.handlers().last().routes(pre, post, out) == api.routes(pre, post, out)
    }

    /// A namespace with the name `name` and no handler.
    pub fn new(name: &'static [&'static str]) -> (ns: Namespace)
        ensures
            ns.name_segs() == slice_views(name@),
            ns.handlers().len() == 0,
    {
        Namespace { name, apis: Vec::new() }
    }

    /// This namespace with `api` bound after the handlers it holds.
    pub fn with_api<A: Api>(self, api: A) -> (ns: Namespace)
        ensures
            Namespace::binds(self, api, ns),
    {
        let mut ns = self;
        ns.bind(api);
        ns
    }

    /// Binds `api` after the handlers that are bound already.
    pub fn bind<A: Api>(&mut self, api: A)
        ensures
            Namespace::binds(*old(self), api, *final(self)),
    {
        self.apis.push(share(api));
        assert(self.apis@.drop_last() == old(self).apis@);
    }
}

impl Api for Namespace {
    closed spec fn name_segs(&self) -> Seq<Seq<char>> {
        slice_views(self.name@)
    }

    /// A request whose segments begin with the name of a handler goes to the
    /// first such handler, without that name; any other request is left as
    /// it is and answered with the error of [`gen_api_not_found`].
    open spec fn routes(&self, pre: RequestView, post: RequestView, out: ApiResult) -> bool {
        let i = self.chosen(pre.path_segs);
        if i < self.handlers().len() {
            self.handlers()[i].routes(
                pre.without_first(self.handlers()[i].name_segs().len()),
                post,
                out,
            )
        } else {
            &&& post == pre
            &&& out matches Err(error) && error@.is_plain(
                404,
                "Unable to find the requested API."@,
            )
        }
    }

    fn name(&self) -> (name: &[&str]) {
        self.name
    }

    fn route(&self, req: &mut Request) -> (out: ApiResult) {
        let ghost names = self.handler_names();
        let ghost segs = req@.path_segs;
        let mut i: usize = 0;
        while i < self.apis.len()
            invariant
                i <= self.apis@.len(),
                names == self.handler_names(),
                segs == old(req)@.path_segs,
                req@ == old(req)@,
                forall|j: int| 0 <= j < i ==> !begins_with(segs, names[j]),
            decreases self.apis@.len() - i,
        {
            let api = &self.apis[i];
            let name = api.name();
            if req.match_segs(name) {
                proof {
                    lemma_first_match_is(names, segs, i as int);
                }
                return api.route(req);
            }
            i = i + 1;
        }
        proof {
            lemma_first_match_is(names, segs, i as int);
        }
        gen_api_not_found()
    }
}

} // verus!
