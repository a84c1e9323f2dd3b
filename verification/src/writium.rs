//! The root of a handler tree, and what it makes of one transaction.
//!
//! [`Writium::serve`] takes what the transport has read of a request, builds
//! the request from it, hands it to the root namespace and turns the answer
//! into the response to send. A failure is answered with the response that
//! its error renders as, and comes with a line for the log where the error is
//! the client's or the server's. Reading the request from the network and
//! writing the log are left to the caller.
use crate::api::{Api, ApiResult};
use crate::error::{Error, ErrorView};
use crate::namespace::Namespace;
use crate::proto::http::{status_number, uri_path, uri_query};
use crate::proto::path::path_segments;
use crate::proto::request::{Request, RequestView};
use crate::proto::response::Response;
use hyper::{Headers, Method, Uri};
use vstd::prelude::*;
use vstd::string::StringExecFns;

verus! {

/// The lines that tell of the causes `chain` in a report, one for each cause
/// and each behind a line break.
pub open spec fn by_lines(chain: Seq<Seq<char>>) -> Seq<char>
    decreases chain.len(),
{
    if chain.len() == 0 {
        Seq::empty()
    } else {
        by_lines(chain.drop_last()) + "\n\tBy: "@ + chain.last()
    }
}

/// What is to be logged of the error `error`: for an error of the server its
/// description and all its causes, for an error of the client its
/// description, and nothing for any other.
pub open spec fn report_text(error: ErrorView) -> Option<Seq<char>> {
    let number = status_number(error.status);
    if 500 <= number <= 599 {
        Some("Unexpected error occured: "@ + error.description + by_lines(error.cause))
    } else if 400 <= number <= 499 {
        Some("Bad request induced an error: "@ + error.description)
    } else {
        None
    }
}

/// What is to be logged of the error `error`, if anything.
pub fn report(error: &Error) -> (text: Option<String>)
    ensures
        report_text(error@) == match text {
            Some(t) => Some(t@),
            None => None,
        },
{
    let status = error.status();
    if status.is_server_error() {
        let mut text = String::from_str("Unexpected error occured: ");
        text.append(error.description());
        let ghost head = text@;
        let ghost whole = error@.cause;
        let ghost mut done: int = 0;
        let mut link = error.cause();
        loop
            invariant
                0 <= done <= whole.len(),
                match link {
                    Some(cause) => cause.chain() == whole.skip(done),
                    None => done == whole.len(),
                },
                text@ == head + by_lines(whole.take(done)),
            ensures
                done == whole.len(),
            decreases whole.len() - done,
        {
            match link {
                None => {
                    break;
                },
                Some(cause) => {
                    proof {
                        cause.lemma_chain_has_a_message();
                        assert(whole.take(done + 1).drop_last() =~= whole.take(done));
                    }
                    text.append("\n\tBy: ");
                    text.append(cause.message());
                    link = cause.source();
                    proof {
                        if let Some(behind) = link {
                            assert(behind.chain() =~= cause.chain().skip(1));
                        }
                        done = done + 1;
                    }
                },
            }
        }
        assert(whole.take(done) =~= whole);
        Some(text)
    } else if status.is_client_error() {
        let mut text = String::from_str("Bad request induced an error: ");
        text.append(error.description());
        Some(text)
    } else {
        None
    }
}

/// What [`Writium::serve`] makes of one transaction: the response to send,
/// and the text to log, if there is one.
pub struct Served {
    pub response: Response,
    pub report: Option<String>,
}

/// The request that the root namespace is handed for a transaction with the
/// method `method`, the URI `uri`, the headers `headers` and the body
/// `body`.
pub open spec fn arrival(method: Method, uri: Uri, headers: Headers, body: Seq<u8>) -> RequestView {
    RequestView {
        method,
        query: match uri_query(uri) {
            Some(query) => query,
            None => Seq::empty(),
        },
        path_segs: path_segments(uri_path(uri)),
        headers,
        body,
        extra: Map::empty(),
    }
}

/// Whether `served` is what is made of the answer `out`: the response of a
/// handler as it is and nothing to log, or the response that an error
/// renders as and what is to be logged of the error.
pub open spec fn answers(out: ApiResult, served: Served) -> bool {
    match out {
        Ok(res) => served.response == res && served.report is None,
        Err(error) => {
            &&& error@.rendered_as(served.response@)
            &&& report_text(error@) == match served.report {
                Some(t) => Some(t@),
                None => None,
            }
        },
    }
}

/// What `out` is answered with to the transport.
pub fn conclude(out: ApiResult) -> (served: Served)
    ensures
        answers(out, served),
{
    match out {
        Ok(res) => Served { response: res, report: None },
        Err(error) => {
            let text = report(&error);
            Served { response: error.into_response(), report: text }
        },
    }
}

/// The root of a handler tree.
#[derive(Clone)]
pub struct Writium {
    ns: Namespace,
}

impl Writium {
    /// The root namespace, to which the handlers are bound.
    pub closed spec fn root(&self) -> Namespace {
        self.ns
    }

    /// A root with no handler. Its namespace has the empty name.
    pub fn new() -> (writium: Writium)
        ensures
            writium.root().handlers().len() == 0,
            writium.root().name_segs().len() == 0,
    {
        Writium { ns: Namespace::new(&[]) }
    }

    /// Binds `api` to the root namespace, after the handlers bound already.
    pub fn bind<A: Api>(&mut self, api: A)
        ensures
            Namespace::binds(old(self).root(), api, final(self).root()),
    {
        self.ns.bind(api)
    }

    /// Answers one transaction: routes the request with the method `method`,
    /// the path and query of `uri`, the headers `headers` and the body
    /// `body` through the tree, and concludes with what the tree answers.
    pub fn serve(&self, method: Method, uri: &Uri, headers: Headers, body: Vec<u8>) -> (served:
        Served)
        ensures
            exists|post: RequestView, out: ApiResult| #[trigger]
                self.root().routes(arrival(method, *uri, headers, body@), post, out) && answers(
                    out,
                    served,
                ),
    {
        let mut req = Request::new(method);
        req.set_headers(headers);
        req.set_body(body);
        req.set_uri(uri);
        let ghost pre = req@;
        assert(pre == arrival(method, *uri, headers, body@));
        let out = self.ns.route(&mut req);
        let ghost before = out;
        let served = conclude(out);
        assert(self.root().routes(pre, req@, before) && answers(before, served));
        served
    }
}

} // verus!
