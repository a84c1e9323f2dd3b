//! Failures, which are answers too.
//!
//! An [`Error`] carries the status code that tells how grave it is, a fixed
//! description for the client, headers of its own, and the chain of causes
//! behind it, which is kept for the log and never sent. Every error can be
//! turned into the response that ends the transaction.
use crate::proto::http::{
    content_type_after, content_type_of, header_lines, media_type_in, set_raw_header,
    status_number, HeaderLines,
};
use crate::proto::response::{
    content_length_field, content_type_field, declare_json, declare_length, json_media_type,
    status_of, Response, ResponseView,
};
use crate::text::{ascii_lower, decimal};
use hyper::{Headers, StatusCode};
use std::fmt::Display;
use vstd::prelude::*;
use vstd::string::{to_string_from_display_ensures, StringSliceAdditionalSpecFns};

verus! {

/// Whether `text` is a text that `error` displays as.
pub open spec fn shows<T: Display>(error: &T, text: Seq<char>) -> bool {
    exists|s: String| s@ == text && to_string_from_display_ensures::<T>(error, s)
}

/// One link of a chain of causes: a message, and the cause behind it.
#[derive(Debug)]
pub struct Cause {
    message: String,
    source: Option<Box<Cause>>,
}

impl Cause {
    /// The messages of this cause and of those behind it, the nearest first.
    pub closed spec fn chain(&self) -> Seq<Seq<char>>
        decreases self,
    {
        match self.source {
            Some(behind) => seq![self.message@] + behind.chain(),
            None => seq![self.message@],
        }
    }

    /// A chain has at least the message of its first link.
    pub proof fn lemma_chain_has_a_message(&self)
        ensures
            self.chain().len() >= 1,
    {
    }

    /// A cause with the message `message` and nothing behind it.
    pub fn new(message: String) -> (cause: Cause)
        ensures
            cause.chain() == seq![message@],
    {
        Cause { message, source: None }
    }

    /// A cause whose message is the text that `error` displays as.
    pub fn describe<T: Display>(error: &T) -> (cause: Cause)
        ensures
            cause.chain().len() == 1,
            shows(error, cause.chain()[0]),
    {
        let message = error.to_string();
        Cause { message, source: None }
    }

    /// An error as the cause of another: its description, and behind it the
    /// causes that it had.
    pub fn from_error(error: Error) -> (cause: Cause)
        ensures
            cause.chain() == seq![error@.description] + error@.cause,
    {
        let Error { headers: _, status: _, description, cause } = error;
        Cause { message: description.to_owned(), source: cause }
    }

    /// This cause with `behind` as the cause behind it, in place of what was
    /// behind it before.
    pub fn caused_by(self, behind: Cause) -> (cause: Cause)
        ensures
            cause.chain() == seq![self.chain()[0]] + behind.chain(),
    {
        Cause { message: self.message, source: Some(Box::new(behind)) }
    }

    /// The message of this link.
    pub fn message(&self) -> (message: &str)
        ensures
            message@ == self.chain()[0],
    {
        self.message.as_str()
    }

    /// The cause behind this link, if there is one.
    pub fn source(&self) -> (behind: Option<&Cause>)
        ensures
            match behind {
                Some(b) => self.chain() == seq![self.chain()[0]] + b.chain(),
                None => self.chain().len() == 1,
            },
    {
        match &self.source {
            Some(b) => Some(&**b),
            None => None,
        }
    }
}

/// A failed transaction.
#[derive(Debug)]
pub struct Error {
    headers: Headers,
    status: StatusCode,
    description: &'static str,
    cause: Option<Box<Cause>>,
}

/// What an [`Error`] holds. `cause` is the chain of messages behind the
/// error, the nearest first, and is empty where the error has no cause.
pub struct ErrorView {
    pub status: StatusCode,
    pub description: Seq<char>,
    pub headers: Headers,
    pub cause: Seq<Seq<char>>,
}

impl ErrorView {
    /// Whether this is an error as a constructor makes it: the status number
    /// `number`, the description `description`, no header and no cause.
    pub open spec fn is_plain(self, number: u16, description: Seq<char>) -> bool {
        &&& status_number(self.status) == number
        &&& self.description == description
        &&& header_lines(self.headers) == HeaderLines::empty()
        &&& self.cause.len() == 0
    }
}

impl ErrorView {
    /// Whether `res` is the response that tells a client of this error:
    /// the status code of the error, the body [`failure_body`] of its
    /// description, and the headers of the error with `Content-Type` and
    /// `Content-Length` set anew to describe that body.
    pub open spec fn rendered_as(self, res: ResponseView) -> bool {
        &&& res.status == self.status
        &&& res.body == failure_body(self.description)
        &&& header_lines(res.headers) == header_lines(self.headers).insert(
            content_type_field(),
            seq![json_media_type()],
        ).insert(content_length_field(), seq![decimal(res.body.len())])
        &&& content_type_of(res.headers) == media_type_in(json_media_type())
    }

    /// Whether `other` is this error with the one line `value` put under the
    /// header field `name`.
    pub open spec fn with_line(self, name: Seq<char>, value: Seq<u8>, other: ErrorView) -> bool {
        &&& other.status == self.status
        &&& other.description == self.description
        &&& other.cause == self.cause
        &&& header_lines(other.headers) == header_lines(self.headers).insert(
            ascii_lower(name),
            seq![value],
        )
        &&& content_type_of(other.headers) == content_type_after(
            content_type_of(self.headers),
            name,
            value,
        )
    }
}

impl View for Error {
    type V = ErrorView;

    closed spec fn view(&self) -> ErrorView {
        ErrorView {
            status: self.status,
            description: self.description@,
            headers: self.headers,
            cause: match self.cause {
                Some(cause) => cause.chain(),
                None => Seq::empty(),
            },
        }
    }
}

/// The body that tells a client of a failure described as `description`: the
/// JSON object `{"msg":"..."}` with the description written into it as it is.
pub open spec fn failure_body(description: Seq<char>) -> Seq<u8> {
    "{\"msg\":\"".spec_bytes() + vstd::utf8::encode_utf8(description) + "\"}".spec_bytes()
}

impl Error {
    /// An error with the status code `status` and the description
    /// `description`, no header and no cause.
    pub fn new(status: StatusCode, description: &'static str) -> (error: Error)
        ensures
            error@.status == status,
            error@.is_plain(status_number(status), description@),
    {
        Error { status, headers: Headers::new(), description, cause: None }
    }

    /// The status code.
    pub fn status(&self) -> (status: StatusCode)
        ensures
            status == self@.status,
    {
        self.status
    }

    /// The description.
    pub fn description(&self) -> (description: &'static str)
        ensures
            description@ == self@.description,
    {
        self.description
    }

    /// The header collection.
    pub fn headers(&self) -> (headers: &Headers)
        ensures
            *headers == self@.headers,
    {
        &self.headers
    }

    /// The cause, if there is one.
    pub fn cause(&self) -> (cause: Option<&Cause>)
        ensures
            match cause {
                Some(c) => self@.cause == c.chain(),
                None => self@.cause.len() == 0,
            },
    {
        match &self.cause {
            Some(c) => {
                proof {
                    c.lemma_chain_has_a_message();
                }
                Some(&**c)
            },
            None => None,
        }
    }

    /// The text that this error displays as: its description.
    pub fn to_string(&self) -> (text: String)
        ensures
            text@ == self@.description,
    {
        self.description.to_owned()
    }

    /// A failure of the server: status 500.
    pub fn internal(description: &'static str) -> (error: Error)
        ensures
            error@.is_plain(500, description@),
    {
        Error::new(status_of(500), description)
    }

    /// A request that lacks valid credentials: status 401.
    pub fn unauthorized(description: &'static str) -> (error: Error)
        ensures
            error@.is_plain(401, description@),
    {
        Error::new(status_of(401), description)
    }

    /// A request that cannot be understood: status 400.
    pub fn bad_request(description: &'static str) -> (error: Error)
        ensures
            error@.is_plain(400, description@),
    {
        Error::new(status_of(400), description)
    }

    /// A request that is refused: status 403.
    pub fn forbidden(description: &'static str) -> (error: Error)
        ensures
            error@.is_plain(403, description@),
    {
        Error::new(status_of(403), description)
    }

    /// A request for what does not exist: status 404.
    pub fn not_found(description: &'static str) -> (error: Error)
        ensures
            error@.is_plain(404, description@),
    {
        Error::new(status_of(404), description)
    }

    /// A request with a method that the handler does not take. The status
    /// is 404, as for what does not exist, and the description is fixed.
    pub fn method_not_allowed() -> (error: Error)
        ensures
            error@.is_plain(404, "Method is not allowed."@),
    {
        Error::new(status_of(404), "Method is not allowed.")
    }

    /// Puts the one line `value` under the field `name`, in place of what the
    /// header collection held under that name.
    pub fn set_header(&mut self, name: &str, value: &str)
        ensures
            old(self)@.with_line(name@, value.spec_bytes(), final(self)@),
    {
        set_raw_header(&mut self.headers, name.to_owned(), value.as_bytes_vec());
    }

    /// Replaces the header collection.
    pub fn set_headers(&mut self, headers: Headers)
        ensures
            final(self)@ == (ErrorView { headers, ..old(self)@ }),
    {
        self.headers = headers;
    }

    /// Makes `cause` the cause of this error, in place of the one it had.
    pub fn set_cause(&mut self, cause: Cause)
        ensures
            final(self)@ == (ErrorView { cause: cause.chain(), ..old(self)@ }),
    {
        self.cause = Some(Box::new(cause));
    }

    /// This error with the one line `value` under the field `name`.
    pub fn with_header(self, name: &str, value: &str) -> (error: Error)
        ensures
            self@.with_line(name@, value.spec_bytes(), error@),
    {
        let mut error = self;
        error.set_header(name, value);
        error
    }

    /// This error with the header collection `headers`.
    pub fn with_headers(self, headers: Headers) -> (error: Error)
        ensures
            error@ == (ErrorView { headers, ..self@ }),
    {
        let mut error = self;
        error.set_headers(headers);
        error
    }

    /// This error with `cause` as its cause.
    pub fn with_cause(self, cause: Cause) -> (error: Error)
        ensures
            error@ == (ErrorView { cause: cause.chain(), ..self@ }),
    {
        let mut error = self;
        error.set_cause(cause);
        error
    }

    /// The response that tells the client of this failure: the status code
    /// of the error, the body `{"msg":"..."}` with the description in it,
    /// and the headers of the error, among which `Content-Type` and
    /// `Content-Length` are set anew to describe that body. The causes are
    /// not sent.
    pub fn into_response(self) -> (res: Response)
        ensures
            self@.rendered_as(res@),
    {
        let Error { headers, status, description, cause: _ } = self;
        let mut body: Vec<u8> = Vec::new();
        body.extend_from_slice("{\"msg\":\"".as_bytes());
        body.extend_from_slice(description.as_bytes());
        body.extend_from_slice("\"}".as_bytes());
        let mut headers = headers;
        declare_json(&mut headers);
        declare_length(&mut headers, body.len());
        assert(body@ =~= failure_body(self@.description));
        Response::new().with_status(status).with_headers(headers).with_body(body)
    }
}

} // verus!
