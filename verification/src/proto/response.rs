//! The answer of a handler that succeeded.
use crate::error::Error;
use crate::proto::body::{
    declares_json, encoding_failure, encoding_view, json_failure, json_refusal, json_written,
    read_as, read_form, read_json, read_text, reads_form, reports, text_failure, write_json,
    writes_json,
};
use crate::proto::codec::{form_decoded, json_decoded, json_encoded, utf8_fault};
pub use crate::proto::http::content_type_field;
use crate::proto::http::{
    content_type_after, content_type_of, header_lines, media_type_in, set_raw_header, status_from,
    status_number, HeaderLines,
};
use crate::text::{ascii_lower, decimal, decimal_digits};
use hyper::{Headers, StatusCode};
use serde_json::Value;
use vstd::pervasive::unreached;
use vstd::prelude::*;
use vstd::string::StringSliceAdditionalSpecFns;
use vstd::utf8::valid_utf8;

verus! {

/// A response: a status code, a header collection and a body held in memory.
#[derive(Debug)]
pub struct Response {
    status: StatusCode,
    headers: Headers,
    body: Vec<u8>,
}

/// What a [`Response`] holds.
pub struct ResponseView {
    pub status: StatusCode,
    pub headers: Headers,
    pub body: Seq<u8>,
}

impl ResponseView {
    /// Whether `other` is this response with the one line `value` put under
    /// the header field `name`.
    pub open spec fn with_line(self, name: Seq<char>, value: Seq<u8>, other: ResponseView) -> bool {
        &&& other.status == self.status
        &&& other.body == self.body
        &&& header_lines(other.headers) == header_lines(self.headers).insert(
            ascii_lower(name),
            seq![value],
        )
        &&& content_type_of(other.headers) == content_type_after(
            content_type_of(self.headers),
            name,
            value,
        )
    }
}

impl View for Response {
    type V = ResponseView;

    closed spec fn view(&self) -> ResponseView {
        ResponseView { status: self.status, headers: self.headers, body: self.body@ }
    }
}

/// The field name under which the length of a body is given.
pub open spec fn content_length_field() -> Seq<char> {
    "content-length"@
}

/// The media type that is declared for a JSON body.
pub open spec fn json_media_type() -> Seq<u8> {
    "application/json; charset=UTF-8".spec_bytes()
}

/// Declares in `headers` that the body is JSON.
pub fn declare_json(headers: &mut Headers)
    ensures
        header_lines(*final(headers)) == header_lines(*old(headers)).insert(
            content_type_field(),
            seq![json_media_type()],
        ),
        content_type_of(*final(headers)) == media_type_in(json_media_type()),
{
    proof {
        reveal_strlit("Content-Type");
        reveal_strlit("content-type");
        assert(ascii_lower("Content-Type"@) =~= "content-type"@);
    }
    set_raw_header(
        headers,
        "Content-Type".to_owned(),
        "application/json; charset=UTF-8".as_bytes_vec(),
    );
}

/// Declares in `headers` that the body is `length` bytes long.
pub(crate) fn declare_length(headers: &mut Headers, length: usize)
    ensures
        header_lines(*final(headers)) == header_lines(*old(headers)).insert(
            content_length_field(),
            seq![decimal(length as nat)],
        ),
        content_type_of(*final(headers)) == content_type_of(*old(headers)),
{
    proof {
        reveal_strlit("Content-Length");
        reveal_strlit("content-length");
        reveal_strlit("content-type");
        assert(ascii_lower("Content-Length"@) =~= "content-length"@);
        assert("content-length"@.len() != "content-type"@.len());
    }
    set_raw_header(headers, "Content-Length".to_owned(), decimal_digits(length as u64));
}

/// The status code with the number `number`.
pub(crate) fn status_of(number: u16) -> (status: StatusCode)
    requires
        100 <= number <= 599,
    ensures
        status_number(status) == number,
{
    match status_from(number) {
        Some(status) => status,
        None => unreached(),
    }
}

impl Response {
    /// A response with the status 200, no header and an empty body.
    pub fn new() -> (res: Response)
        ensures
            status_number(res@.status) == 200,
            header_lines(res@.headers) == HeaderLines::empty(),
            content_type_of(res@.headers) is None,
            res@.body == Seq::<u8>::empty(),
    {
        Response { status: status_of(200), headers: Headers::new(), body: Vec::new() }
    }

    /// The status code.
    pub fn status(&self) -> (status: StatusCode)
        ensures
            status == self@.status,
    {
        self.status
    }

    /// The header collection.
    pub fn headers(&self) -> (headers: &Headers)
        ensures
            *headers == self@.headers,
    {
        &self.headers
    }

    /// The body.
    pub fn body(&self) -> (body: &[u8])
        ensures
            body@ == self@.body,
    {
        self.body.as_slice()
    }

    /// The body as text.
    pub fn to_str(&self) -> (out: Result<&str, Error>)
        ensures
            out is Ok <==> valid_utf8(self@.body),
            out matches Ok(text) ==> text.spec_bytes() == self@.body,
            out matches Err(error) ==> reports(error@, text_failure(), utf8_fault(self@.body)),
    {
        read_text(self.body.as_slice())
    }

    /// The body as a JSON value. A response that declares a media type other
    /// than `application/json` is refused as a bad request.
    pub fn to_json(&self) -> (out: Result<Value, Error>)
        ensures
            read_as(
                content_type_of(self@.headers),
                "json"@,
                json_refusal(),
                json_decoded(self@.body),
                json_failure(),
                out,
            ),
    {
        read_json(&self.headers, self.body.as_slice())
    }

    /// The body as a form, handed out as a JSON object. A response that
    /// declares a media type other than `application/x-www-form-urlencoded`
    /// is refused as a bad request, and a form with a key that is nested too
    /// deeply is not read.
    pub fn to_form(&self) -> (out: Result<Value, Error>)
        ensures
            reads_form(content_type_of(self@.headers), self@.body, out),
    {
        read_form(&self.headers, self.body.as_slice())
    }

    /// Sets the status code.
    pub fn set_status(&mut self, status: StatusCode)
        ensures
            final(self)@ == (ResponseView { status, ..old(self)@ }),
    {
        self.status = status;
    }

    /// Puts the one line `value` under the field `name`, in place of what the
    /// header collection held under that name.
    pub fn set_header(&mut self, name: &str, value: &str)
        ensures
            old(self)@.with_line(name@, value.spec_bytes(), final(self)@),
    {
        set_raw_header(&mut self.headers, name.to_owned(), value.as_bytes_vec());
    }

    /// Replaces the header collection.
    pub fn set_headers(&mut self, headers: Headers)
        ensures
            final(self)@ == (ResponseView { headers, ..old(self)@ }),
    {
        self.headers = headers;
    }

    /// Replaces the body.
    pub fn set_body(&mut self, body: Vec<u8>)
        ensures
            final(self)@ == (ResponseView { body: body@, ..old(self)@ }),
    {
        self.body = body;
    }

    /// Makes the bytes of `encoded` the body, and declares the body as JSON.
    /// Where `encoded` holds no bytes, the response is left as it was.
    pub fn put_json<E: std::fmt::Display>(&mut self, encoded: Result<Vec<u8>, E>) -> (out: Result<
        (),
        Error,
    >)
        ensures
            writes_json(
                encoding_view(encoded),
                header_lines(old(self)@.headers),
                header_lines(final(self)@.headers),
                content_type_of(old(self)@.headers),
                content_type_of(final(self)@.headers),
                old(self)@.body,
                final(self)@.body,
                out,
            ),
            final(self)@.status == old(self)@.status,
            encoded is Err ==> final(self)@ == old(self)@,
    {
        json_written(&mut self.headers, &mut self.body, encoded)
    }

    /// Makes `json` the body, and declares the body as JSON. Where `json`
    /// cannot be written, the response is left as it was.
    pub fn set_json(&mut self, json: &Value) -> (out: Result<(), Error>)
        ensures
            writes_json(
                json_encoded(*json),
                header_lines(old(self)@.headers),
                header_lines(final(self)@.headers),
                content_type_of(old(self)@.headers),
                content_type_of(final(self)@.headers),
                old(self)@.body,
                final(self)@.body,
                out,
            ),
            final(self)@.status == old(self)@.status,
            json_encoded(*json) is Err ==> final(self)@ == old(self)@,
    {
        write_json(&mut self.headers, &mut self.body, json)
    }

    /// This response with the status code `status`.
    pub fn with_status(self, status: StatusCode) -> (res: Response)
        ensures
            res@ == (ResponseView { status, ..self@ }),
    {
        let mut res = self;
        res.set_status(status);
        res
    }

    /// This response with the one line `value` under the field `name`.
    pub fn with_header(self, name: &str, value: &str) -> (res: Response)
        ensures
            self@.with_line(name@, value.spec_bytes(), res@),
    {
        let mut res = self;
        res.set_header(name, value);
        res
    }

    /// This response with the header collection `headers`.
    pub fn with_headers(self, headers: Headers) -> (res: Response)
        ensures
            res@ == (ResponseView { headers, ..self@ }),
    {
        let mut res = self;
        res.set_headers(headers);
        res
    }

    /// This response with `json` as its body, declared as JSON.
    pub fn with_json(self, json: &Value) -> (out: Result<Response, Error>)
        ensures
            match json_encoded(*json) {
                Ok(bytes) => {
                    &&& out matches Ok(res)
                    &&& res@.status == self@.status
                    &&& res@.body == bytes
                    &&& declares_json(
                        header_lines(self@.headers),
                        header_lines(res@.headers),
                        content_type_of(res@.headers),
                    )
                },
                Err(why) => out matches Err(error) && reports(error@, encoding_failure(), why),
            },
    {
        let mut res = self;
        match res.set_json(json) {
            Ok(()) => Ok(res),
            Err(error) => Err(error),
        }
    }

    /// This response with the body `body`.
    pub fn with_body(self, body: Vec<u8>) -> (res: Response)
        ensures
            res@ == (ResponseView { body: body@, ..self@ }),
    {
        let mut res = self;
        res.set_body(body);
        res
    }
}

} // verus!
