//! The request as it travels down a handler tree.
//!
//! A request holds its body in memory and its path as a list of segments.
//! Each level of the tree that recognises its own name at the head of that
//! list takes the name off, so that a handler sees only what is left for it.
//! A level can also leave values for the levels below under a key.
use crate::error::Error;
use crate::proto::body::{
    decodes_form, declares_json, encoding_failure, encoding_view, json_failure, json_refusal,
    json_written, query_failure, read_as, read_form, read_json, read_query, read_text, reads_form,
    reports, text_failure, write_json, writes_json,
};
use crate::proto::codec::{form_decoded, json_decoded, json_encoded, utf8_fault};
use crate::proto::extra::{Erased, Extras};
use crate::proto::http::{
    content_type_after, content_type_of, header_lines, set_raw_header, uri_path, uri_query,
    HeaderLines,
};
use crate::proto::path::{collect_path_segs, path_segments};
use crate::proto::response::{content_type_field, json_media_type};
use crate::text::{ascii_lower, slice_views, str_eq, views};
use hyper::{Headers, Method, Uri};
use serde_json::Value;
use vstd::prelude::*;
use vstd::string::StringSliceAdditionalSpecFns;
use vstd::utf8::valid_utf8;

verus! {

/// A request: its method, the path segments that no handler has taken yet,
/// its query as it was sent, its headers, its body, and the values that
/// handlers have left with it.
#[derive(Debug)]
pub struct Request {
    method: Method,
    query: String,
    path_segs: Vec<String>,
    headers: Headers,
    body: Vec<u8>,
    extra: Extras,
}

/// What a [`Request`] holds.
pub struct RequestView {
    pub method: Method,
    pub query: Seq<char>,
    pub path_segs: Seq<Seq<char>>,
    pub headers: Headers,
    pub body: Seq<u8>,
    pub extra: Map<Seq<char>, Erased>,
}

/// Whether the segments `segs` begin with `name`: there are at least as many
/// of them as the name has, and the first of them are those of the name.
pub open spec fn begins_with(segs: Seq<Seq<char>>, name: Seq<Seq<char>>) -> bool {
    name.len() <= segs.len() && segs.take(name.len() as int) == name
}

impl RequestView {
    /// Whether the segments that are left begin with `name`.
    pub open spec fn begins_with(self, name: Seq<Seq<char>>) -> bool {
        begins_with(self.path_segs, name)
    }

    /// Whether `other` is this request but for its headers and its body.
    pub open spec fn differs_in_message_only(self, other: RequestView) -> bool {
        &&& other.method == self.method
        &&& other.query == self.query
        &&& other.path_segs == self.path_segs
        &&& other.extra == self.extra
    }

    /// Whether `other` is this request with the one line `value` put under
    /// the header field `name`.
    pub open spec fn with_line(self, name: Seq<char>, value: Seq<u8>, other: RequestView) -> bool {
        &&& self.differs_in_message_only(other)
        &&& other.body == self.body
        &&& header_lines(other.headers) == header_lines(self.headers).insert(
            ascii_lower(name),
            seq![value],
        )
        &&& content_type_of(other.headers) == content_type_after(
            content_type_of(self.headers),
            name,
            value,
        )
    }

    /// This request with its first `n` segments taken off.
    pub open spec fn without_first(self, n: nat) -> RequestView {
        RequestView { path_segs: self.path_segs.skip(n as int), ..self }
    }
}

impl View for Request {
    type V = RequestView;

    closed spec fn view(&self) -> RequestView {
        RequestView {
            method: self.method,
            query: self.query@,
            path_segs: views(self.path_segs@),
            headers: self.headers,
            body: self.body@,
            extra: self.extra@,
        }
    }
}

/// Whether `pred` can be asked about the segment `seg`.
pub open spec fn can_judge<F: Fn(&str) -> bool>(pred: F, seg: Seq<char>) -> bool {
    forall|s: &str| s@ == seg ==> call_requires(pred, (s,))
}

/// Whether `verdict` is an answer that `pred` gives about the segment `seg`.
pub open spec fn judges<F: Fn(&str) -> bool>(pred: F, seg: Seq<char>, verdict: bool) -> bool {
    exists|s: &str| s@ == seg && call_ensures(pred, (s,), verdict)
}

/// Whether `pred` may say yes to each of the first `n` of the segments
/// `segs`.
pub open spec fn may_take<F: Fn(&str) -> bool>(pred: F, segs: Seq<Seq<char>>, n: int) -> bool {
    forall|j: int| 0 <= j < n ==> judges(pred, segs[j], true)
}

impl Request {
    /// A request with the method `method` and nothing else: no segment, an
    /// empty query, no header, an empty body and no value left with it.
    pub fn new(method: Method) -> (req: Request)
        ensures
            req@.method == method,
            req@.query == Seq::<char>::empty(),
            req@.path_segs == Seq::<Seq<char>>::empty(),
            header_lines(req@.headers) == HeaderLines::empty(),
            content_type_of(req@.headers) is None,
            req@.body == Seq::<u8>::empty(),
            req@.extra == Map::<Seq<char>, Erased>::empty(),
    {
        Request {
            method,
            query: String::new(),
            path_segs: Vec::new(),
            headers: Headers::new(),
            body: Vec::new(),
            extra: Extras::new(),
        }
    }

    /// The method.
    pub fn method(&self) -> (method: Method)
        ensures
            method == self@.method,
    {
        self.method.clone()
    }

    /// The parameters of the query, as a JSON object. A query with a key
    /// that is nested too deeply is not read.
    pub fn to_param(&self) -> (out: Result<Value, Error>)
        ensures
            decodes_form(vstd::utf8::encode_utf8(self@.query), query_failure(), out),
    {
        read_query(self.query.as_str())
    }

    /// The header collection.
    pub fn headers(&self) -> (headers: &Headers)
        ensures
            *headers == self@.headers,
    {
        &self.headers
    }

    /// The body.
    pub fn body(&self) -> (body: &[u8])
        ensures
            body@ == self@.body,
    {
        self.body.as_slice()
    }

    /// The query, as it was sent.
    pub fn query(&self) -> (query: &str)
        ensures
            query@ == self@.query,
    {
        self.query.as_str()
    }

    /// The body as text.
    pub fn to_str(&self) -> (out: Result<&str, Error>)
        ensures
            out is Ok <==> valid_utf8(self@.body),
            out matches Ok(text) ==> text.spec_bytes() == self@.body,
            out matches Err(error) ==> reports(error@, text_failure(), utf8_fault(self@.body)),
    {
        read_text(self.body.as_slice())
    }

    /// The body as a JSON value. A request that declares a media type other
    /// than `application/json` is refused as a bad request.
    pub fn to_json(&self) -> (out: Result<Value, Error>)
        ensures
            read_as(
                content_type_of(self@.headers),
                "json"@,
                json_refusal(),
                json_decoded(self@.body),
                json_failure(),
                out,
            ),
    {
        read_json(&self.headers, self.body.as_slice())
    }

    /// The body as a form, handed out as a JSON object. A request that
    /// declares a media type other than `application/x-www-form-urlencoded`
    /// is refused as a bad request, and a form with a key that is nested too
    /// deeply is not read.
    pub fn to_form(&self) -> (out: Result<Value, Error>)
        ensures
            reads_form(content_type_of(self@.headers), self@.body, out),
    {
        read_form(&self.headers, self.body.as_slice())
    }

    /// Takes the path segments and the query from `uri`. A URI without a
    /// query gives the empty query.
    pub fn set_uri(&mut self, uri: &Uri)
        ensures
            final(self)@ == (RequestView {
                path_segs: path_segments(uri_path(*uri)),
                query: match uri_query(*uri) {
                    Some(query) => query,
                    None => Seq::empty(),
                },
                ..old(self)@
            }),
    {
        self.path_segs = collect_path_segs(uri.path());
        self.query =
        match uri.query() {
            Some(query) => query.to_owned(),
            None => String::new(),
        };
    }

    /// Replaces the query.
    pub fn set_query(&mut self, query: &str)
        ensures
            final(self)@ == (RequestView { query: query@, ..old(self)@ }),
    {
        self.query = query.to_owned();
    }

    /// Replaces the path segments, which are taken as they are.
    pub fn set_path_segs(&mut self, path_segs: &[&str])
        ensures
            final(self)@ == (RequestView { path_segs: slice_views(path_segs@), ..old(self)@ }),
    {
        let mut segs: Vec<String> = Vec::new();
        let mut i: usize = 0;
        while i < path_segs.len()
            invariant
                i <= path_segs@.len(),
                segs@.len() == i,
                forall|j: int| 0 <= j < i ==> segs@[j]@ == path_segs@[j]@,
            decreases path_segs@.len() - i,
        {
            segs.push(path_segs[i].to_owned());
            i = i + 1;
        }
        assert(views(segs@) =~= slice_views(path_segs@));
        self.path_segs = segs;
    }

    /// Puts the one line `value` under the field `name`, in place of what the
    /// header collection held under that name.
    pub fn set_header(&mut self, name: &str, value: &str)
        ensures
            old(self)@.with_line(name@, value.spec_bytes(), final(self)@),
    {
        set_raw_header(&mut self.headers, name.to_owned(), value.as_bytes_vec());
    }

    /// Replaces the header collection.
    pub fn set_headers(&mut self, headers: Headers)
        ensures
            final(self)@ == (RequestView { headers, ..old(self)@ }),
    {
        self.headers = headers;
    }

    /// Replaces the body.
    pub fn set_body(&mut self, body: Vec<u8>)
        ensures
            final(self)@ == (RequestView { body: body@, ..old(self)@ }),
    {
        self.body = body;
    }

    /// Makes the bytes of `encoded` the body, and declares the body as JSON.
    /// Where `encoded` holds no bytes, the request is left as it was.
    pub fn put_json<E: std::fmt::Display>(&mut self, encoded: Result<Vec<u8>, E>) -> (out: Result<
        (),
        Error,
    >)
        ensures
            writes_json(
                encoding_view(encoded),
                header_lines(old(self)@.headers),
                header_lines(final(self)@.headers),
                content_type_of(old(self)@.headers),
                content_type_of(final(self)@.headers),
                old(self)@.body,
                final(self)@.body,
                out,
            ),
            old(self)@.differs_in_message_only(final(self)@),
            encoded is Err ==> final(self)@ == old(self)@,
    {
        json_written(&mut self.headers, &mut self.body, encoded)
    }

    /// Makes `json` the body, and declares the body as JSON. Where `json`
    /// cannot be written, the request is left as it was.
    pub fn set_json(&mut self, json: &Value) -> (out: Result<(), Error>)
        ensures
            writes_json(
                json_encoded(*json),
                header_lines(old(self)@.headers),
                header_lines(final(self)@.headers),
                content_type_of(old(self)@.headers),
                content_type_of(final(self)@.headers),
                old(self)@.body,
                final(self)@.body,
                out,
            ),
            old(self)@.differs_in_message_only(final(self)@),
            json_encoded(*json) is Err ==> final(self)@ == old(self)@,
    {
        write_json(&mut self.headers, &mut self.body, json)
    }

    /// This request with the path segments and the query of `uri`.
    pub fn with_uri(self, uri: &Uri) -> (req: Request)
        ensures
            req@ == (RequestView {
                path_segs: path_segments(uri_path(*uri)),
                query: match uri_query(*uri) {
                    Some(query) => query,
                    None => Seq::empty(),
                },
                ..self@
            }),
    {
        let mut req = self;
        req.set_uri(uri);
        req
    }

    /// This request with the query `query`.
    pub fn with_query(self, query: &str) -> (req: Request)
        ensures
            req@ == (RequestView { query: query@, ..self@ }),
    {
        let mut req = self;
        req.set_query(query);
        req
    }

    /// This request with the path segments `path_segs`.
    pub fn with_path_segs(self, path_segs: &[&str]) -> (req: Request)
        ensures
            req@ == (RequestView { path_segs: slice_views(path_segs@), ..self@ }),
    {
        let mut req = self;
        req.set_path_segs(path_segs);
        req
    }

    /// This request with the one line `value` under the field `name`.
    pub fn with_header(self, name: &str, value: &str) -> (req: Request)
        ensures
            self@.with_line(name@, value.spec_bytes(), req@),
    {
        let mut req = self;
        req.set_header(name, value);
        req
    }

    /// This request with the header collection `headers`.
    pub fn with_headers(self, headers: Headers) -> (req: Request)
        ensures
            req@ == (RequestView { headers, ..self@ }),
    {
        let mut req = self;
        req.set_headers(headers);
        req
    }

    /// This request with the body `body`.
    pub fn with_body(self, body: Vec<u8>) -> (req: Request)
        ensures
            req@ == (RequestView { body: body@, ..self@ }),
    {
        let mut req = self;
        req.set_body(body);
        req
    }

    /// This request with `json` as its body, declared as JSON.
    pub fn with_json(self, json: &Value) -> (out: Result<Request, Error>)
        ensures
            match json_encoded(*json) {
                Ok(bytes) => {
                    &&& out matches Ok(req)
                    &&& self@.differs_in_message_only(req@)
                    &&& req@.body == bytes
                    &&& declares_json(
                        header_lines(self@.headers),
                        header_lines(req@.headers),
                        content_type_of(req@.headers),
                    )
                },
                Err(why) => out matches Err(error) && reports(error@, encoding_failure(), why),
            },
    {
        let mut req = self;
        match req.set_json(json) {
            Ok(()) => Ok(req),
            Err(error) => Err(error),
        }
    }

    /// The value of type `T` that was left under the key `key`. There is
    /// none where nothing was left under the key, or a value of another type.
    pub fn extra<T: 'static>(&self, key: &str) -> (found: Option<&T>)
        ensures
            found matches Some(value) ==> self@.extra.contains_key(key@)
                && self@.extra[key@].holds(*value),
            forall|value: T|
                self@.extra.contains_key(key@) && #[trigger] self@.extra[key@].holds(value)
                    ==> found == Some(&value),
    {
        match self.extra.get(key) {
            Some(boxed) => boxed.downcast_ref::<T>(),
            None => None,
        }
    }

    /// Leaves `val` under the key `key`, in place of what was there. Nothing
    /// else of the request changes.
    pub fn set_extra<T: 'static>(&mut self, key: &str, val: T)
        ensures
            final(self)@.extra[key@].holds(val),
            final(self)@ == (RequestView {
                extra: old(self)@.extra.insert(key@, final(self)@.extra[key@]),
                ..old(self)@
            }),
    {
        self.extra.put(key, Erased::new(val));
    }

    /// The path segments that are left.
    pub fn path_segs(&self) -> (segs: &[String])
        ensures
            views(segs@) == self@.path_segs,
    {
        self.path_segs.as_slice()
    }

    /// Takes the first segment off if it is `seg`, and says whether it did.
    pub fn match_seg(&mut self, seg: &str) -> (matched: bool)
        ensures
            matched == old(self)@.begins_with(seq![seg@]),
            final(self)@ == if matched {
                old(self)@.without_first(1)
            } else {
                old(self)@
            },
    {
        if self.path_segs.len() > 0 && str_eq(self.path_segs[0].as_str(), seg) {
            assert(old(self)@.path_segs.take(1) =~= seq![seg@]);
            self.path_segs.remove(0);
            assert(self@.path_segs =~= old(self)@.path_segs.skip(1));
            true
        } else {
            assert(self.path_segs@.len() > 0 ==> old(self)@.path_segs.take(1)[0] != seg@);
            false
        }
    }

    /// Takes the first segments off if they are `segs`, one for one and all
    /// of them, and says whether it did. Where they are not, the request is
    /// left as it was.
    pub fn match_segs(&mut self, segs: &[&str]) -> (matched: bool)
        ensures
            matched == old(self)@.begins_with(slice_views(segs@)),
            final(self)@ == if matched {
                old(self)@.without_first(segs@.len())
            } else {
                old(self)@
            },
    {
        let n = segs.len();
        if self.path_segs.len() < n {
            return false;
        }
        let mut i: usize = 0;
        while i < n
            invariant
                i <= n,
                n == segs@.len(),
                n <= self.path_segs@.len(),
                *self == *old(self),
                forall|j: int| 0 <= j < i ==> self.path_segs@[j]@ == segs@[j]@,
            decreases n - i,
        {
            if !str_eq(self.path_segs[i].as_str(), segs[i]) {
                assert(self@.path_segs.take(n as int)[i as int] != slice_views(segs@)[i as int]);
                return false;
            }
            i = i + 1;
        }
        assert(self@.path_segs.take(n as int) =~= slice_views(segs@));
        let rest = self.path_segs.split_off(n);
        self.path_segs = rest;
        assert(self@.path_segs =~= old(self)@.path_segs.skip(n as int));
        true
    }

    /// Takes the first segment off and hands it out if `pred` says yes to
    /// it. Where there is no segment or `pred` says no, the request is left
    /// as it was.
    pub fn match_seg_if<F>(&mut self, pred: F) -> (taken: Option<String>) where
        F: Fn(&str) -> bool,

        requires
            old(self)@.path_segs.len() > 0 ==> can_judge(pred, old(self)@.path_segs[0]),
        ensures
            match taken {
                Some(seg) => {
                    &&& old(self)@.path_segs.len() > 0
                    &&& seg@ == old(self)@.path_segs[0]
                    &&& judges(pred, seg@, true)
                    &&& final(self)@ == old(self)@.without_first(1)
                },
                None => {
                    &&& final(self)@ == old(self)@
                    &&& old(self)@.path_segs.len() > 0 ==> judges(
                        pred,
                        old(self)@.path_segs[0],
                        false,
                    )
                },
            },
    {
        if self.path_segs.len() > 0 {
            let yes = pred(self.path_segs[0].as_str());
            if yes {
                let seg = self.path_segs.remove(0);
                assert(self@.path_segs =~= old(self)@.path_segs.skip(1));
                return Some(seg);
            }
        }
        None
    }

    /// Takes segments off from the front for as long as `pred` says yes to
    /// them, and hands out those it took, in order. The predicate is asked
    /// about a segment only after it has said yes to all those before it,
    /// and need not be one that can be asked about any other.
    pub fn match_segs_while<F>(&mut self, pred: F) -> (taken: Vec<String>) where
        F: Fn(&str) -> bool,

        requires
            forall|i: int|
                0 <= i < old(self)@.path_segs.len() && #[trigger] may_take(
                    pred,
                    old(self)@.path_segs,
                    i,
                ) ==> can_judge(pred, old(self)@.path_segs[i]),
        ensures
            taken@.len() <= old(self)@.path_segs.len(),
            views(taken@) == old(self)@.path_segs.take(taken@.len() as int),
            final(self)@ == old(self)@.without_first(taken@.len()),
            may_take(pred, old(self)@.path_segs, taken@.len() as int),
            taken@.len() < old(self)@.path_segs.len() ==> judges(
                pred,
                old(self)@.path_segs[taken@.len() as int],
                false,
            ),
    {
        let n = self.path_segs.len();
        let mut k: usize = 0;
        while k < n
            invariant
                k <= n,
                n == self.path_segs@.len(),
                *self == *old(self),
                forall|i: int|
                    0 <= i < n && #[trigger] may_take(pred, self@.path_segs, i) ==> can_judge(
                        pred,
                        self@.path_segs[i],
                    ),
                may_take(pred, self@.path_segs, k as int),
            ensures
                k < n ==> judges(pred, self@.path_segs[k as int], false),
            decreases n - k,
        {
            assert(can_judge(pred, self@.path_segs[k as int]));
            let yes = pred(self.path_segs[k].as_str());
            if !yes {
                break;
            }
            k = k + 1;
        }
        let rest = self.path_segs.split_off(k);
        let mut taken: Vec<String> = Vec::new();
        std::mem::swap(&mut taken, &mut self.path_segs);
        self.path_segs = rest;
        assert(self@.path_segs =~= old(self)@.path_segs.skip(k as int));
        taken
    }
}

} // verus!
