//! Reading and writing the body of a message: as text, as JSON, as a form.
//!
//! A request and a response read their bodies by the same rules, which stand
//! here once. A body is read as JSON or as a form only if the message does
//! not declare another media type; what the decoder then makes of the bytes
//! is handed on, and a failure of the decoder becomes an internal error that
//! keeps the decoder's message as its cause. A form or a query whose keys are
//! nested deeper than [`KEY_DEPTH_LIMIT`] is not given to the decoder at all.
use crate::error::{shows, Cause, Error, ErrorView};
use crate::proto::codec::{
    decode_form, decode_json, decode_utf8, encode_json, form_decoded, json_decoded, json_encoded,
    utf8_fault,
};
use crate::proto::http::{
    content_type, content_type_of, header_lines, media_type_in, status_number, HeaderLines,
};
use crate::proto::response::{content_type_field, declare_json, json_media_type};
use crate::text::str_eq;
use hyper::Headers;
use serde_json::Value;
use std::fmt::Display;
use vstd::prelude::*;
use vstd::string::StringSliceAdditionalSpecFns;
use vstd::utf8::valid_utf8;

verus! {

/// How many opening brackets a key of a form or of a query may have.
pub const KEY_DEPTH_LIMIT: usize = 32;

/// The description of the refusal to read as JSON what is declared as
/// something else.
pub open spec fn json_refusal() -> Seq<char> {
    "Content should be of type `application/json`."@
}

/// The description of the refusal to read as a form what is declared as
/// something else.
pub open spec fn form_refusal() -> Seq<char> {
    "Content should be of type `application/x-www-form-urlencoded`."@
}

/// The description of a body that is no text.
pub open spec fn text_failure() -> Seq<char> {
    "Unable to parse body as string."@
}

/// The description of a body that is no JSON.
pub open spec fn json_failure() -> Seq<char> {
    "Unable to deserialize body as JSON."@
}

/// The description of a body that is no form.
pub open spec fn form_failure() -> Seq<char> {
    "Unable to parse body as form data."@
}

/// The description of a query that cannot be read.
pub open spec fn query_failure() -> Seq<char> {
    "Unable to deserialize URI query."@
}

/// The description of a value that cannot be written as JSON.
pub open spec fn encoding_failure() -> Seq<char> {
    "Unable to serialize data into JSON."@
}

/// The cause that is given for a key that is nested too deeply.
pub open spec fn depth_fault() -> Seq<char> {
    "A key is nested deeper than 32 levels."@
}

/// What `declared` holds, as characters.
pub open spec fn declared_view(declared: Option<(String, String)>) -> Option<
    (Seq<char>, Seq<char>),
> {
    match declared {
        Some(pair) => Some((pair.0@, pair.1@)),
        None => None,
    }
}

/// Whether a message that declares the media type `declared` may have its
/// body read as `application/` followed by `subtype`: it may if it declares
/// that very type, or none that can be read.
pub open spec fn media_type_allows(
    declared: Option<(Seq<char>, Seq<char>)>,
    subtype: Seq<char>,
) -> bool {
    match declared {
        Some(pair) => pair.0 == "application"@ && pair.1 == subtype,
        None => true,
    }
}

/// Whether `error` is the internal error that stands for the failure `why` of
/// a decoder or an encoder: status 500, the description `description`, no
/// header, and as its one cause a text that `why` displays as.
pub open spec fn reports<E: Display>(error: ErrorView, description: Seq<char>, why: E) -> bool {
    &&& status_number(error.status) == 500
    &&& error.description == description
    &&& header_lines(error.headers) == HeaderLines::empty()
    &&& error.cause.len() == 1
    &&& shows(&why, error.cause[0])
}

/// Whether `error` is the internal error described as `description` whose
/// one cause is the text `why`: status 500, no header.
pub open spec fn blames(error: ErrorView, description: Seq<char>, why: Seq<char>) -> bool {
    &&& status_number(error.status) == 500
    &&& error.description == description
    &&& header_lines(error.headers) == HeaderLines::empty()
    &&& error.cause == seq![why]
}

/// The number of opening brackets of `bytes` after its last `&`.
pub open spec fn brackets_of_last_pair(bytes: Seq<u8>) -> nat
    decreases bytes.len(),
{
    if bytes.len() == 0 {
        0
    } else if bytes.last() == 0x26 {
        0
    } else if bytes.last() == 0x5b {
        brackets_of_last_pair(bytes.drop_last()) + 1
    } else {
        brackets_of_last_pair(bytes.drop_last())
    }
}

/// The greatest number of opening brackets that `bytes` has between two `&`,
/// before the first or after the last: no key of the form is nested deeper.
pub open spec fn most_brackets(bytes: Seq<u8>) -> nat
    decreases bytes.len(),
{
    if bytes.len() == 0 {
        0
    } else if most_brackets(bytes.drop_last()) >= brackets_of_last_pair(bytes) {
        most_brackets(bytes.drop_last())
    } else {
        brackets_of_last_pair(bytes)
    }
}

/// Whether no key of the form `bytes` is nested deeper than
/// [`KEY_DEPTH_LIMIT`].
pub open spec fn keys_are_shallow(bytes: Seq<u8>) -> bool {
    most_brackets(bytes) <= KEY_DEPTH_LIMIT
}

/// Whether no key of the form `bytes` is nested deeper than
/// [`KEY_DEPTH_LIMIT`].
pub fn keys_fit(bytes: &[u8]) -> (fit: bool)
    ensures
        fit == keys_are_shallow(bytes@),
{
    let mut most: usize = 0;
    let mut last: usize = 0;
    let mut i: usize = 0;
    while i < bytes.len()
        invariant
            i <= bytes@.len(),
            last == brackets_of_last_pair(bytes@.take(i as int)),
            most == most_brackets(bytes@.take(i as int)),
            last <= i,
            most <= i,
        decreases bytes@.len() - i,
    {
        assert(bytes@.take(i as int + 1).drop_last() == bytes@.take(i as int));
        if bytes[i] == 0x26 {
            last = 0;
        } else if bytes[i] == 0x5b {
            last = last + 1;
        }
        if last > most {
            most = last;
        }
        i = i + 1;
    }
    assert(bytes@.take(i as int) == bytes@);
    most <= KEY_DEPTH_LIMIT
}

/// What a reader hands out for the outcome `decoded` of its decoder: the
/// value, or the internal error described as `description` that reports the
/// failure.
pub fn decoded_or_internal<T, E: Display>(decoded: Result<T, E>, description: &'static str) -> (out:
    Result<T, Error>)
    ensures
        match decoded {
            Ok(value) => out == Ok::<T, Error>(value),
            Err(why) => out matches Err(error) && reports(error@, description@, why),
        },
{
    match decoded {
        Ok(value) => Ok(value),
        Err(why) => {
            let cause = Cause::describe(&why);
            Err(Error::internal(description).with_cause(cause))
        },
    }
}

/// What a reader hands out for the outcome `decoded` of a decoder that says
/// in words why it failed: the value, or the internal error described as
/// `description` with those words as its cause.
pub fn decoded_or_blamed<T>(decoded: Result<T, String>, description: &'static str) -> (out: Result<
    T,
    Error,
>)
    ensures
        match decoded {
            Ok(value) => out == Ok::<T, Error>(value),
            Err(why) => out matches Err(error) && blames(error@, description@, why@),
        },
{
    match decoded {
        Ok(value) => Ok(value),
        Err(why) => Err(Error::internal(description).with_cause(Cause::new(why))),
    }
}

/// Whether a message that declares `declared` may have its body read as
/// `application/` followed by `subtype`.
pub fn media_type_fits(declared: &Option<(String, String)>, subtype: &str) -> (yes: bool)
    ensures
        yes == media_type_allows(declared_view(*declared), subtype@),
{
    match declared {
        Some(pair) => str_eq(pair.0.as_str(), "application") && str_eq(pair.1.as_str(), subtype),
        None => true,
    }
}

/// Whether the headers `headers` allow the body to be read as `application/`
/// followed by `subtype`.
pub fn allows(headers: &Headers, subtype: &str) -> (yes: bool)
    ensures
        yes == media_type_allows(content_type_of(*headers), subtype@),
{
    let declared = content_type(headers);
    media_type_fits(&declared, subtype)
}

/// Refuses, as a bad request, a message with the headers `headers` whose
/// body is not to be read as JSON.
pub fn expect_json(headers: &Headers) -> (out: Result<(), Error>)
    ensures
        out is Ok <==> media_type_allows(content_type_of(*headers), "json"@),
        out matches Err(error) ==> error@.is_plain(400, json_refusal()),
{
    if allows(headers, "json") {
        Ok(())
    } else {
        Err(Error::bad_request("Content should be of type `application/json`."))
    }
}

/// What is handed out for the outcome `decoded` of reading a body as JSON.
pub fn json_outcome<T, E: Display>(decoded: Result<T, E>) -> (out: Result<T, Error>)
    ensures
        match decoded {
            Ok(value) => out == Ok::<T, Error>(value),
            Err(why) => out matches Err(error) && reports(error@, json_failure(), why),
        },
{
    decoded_or_internal(decoded, "Unable to deserialize body as JSON.")
}

/// Whether `out` refuses a form or a query whose keys are nested too
/// deeply, as an internal error described as `description`, and accepts any
/// other.
pub open spec fn bounds_keys(bytes: Seq<u8>, description: Seq<char>, out: Result<(), Error>) -> bool {
    if keys_are_shallow(bytes) {
        out is Ok
    } else {
        out matches Err(error) && blames(error@, description, depth_fault())
    }
}

/// Refuses the form `bytes` if one of its keys is nested too deeply.
fn expect_keys_fit(bytes: &[u8], description: &'static str) -> (out: Result<(), Error>)
    ensures
        bounds_keys(bytes@, description@, out),
{
    if keys_fit(bytes) {
        Ok(())
    } else {
        let why = Cause::new("A key is nested deeper than 32 levels.".to_owned());
        Err(Error::internal(description).with_cause(why))
    }
}

/// Whether `out` is the answer to a message that declares `declared` and
/// whose body `body` is to be read as a form: a bad request where the
/// declared type does not allow it, else what [`bounds_keys`] says.
pub open spec fn admits_form(
    declared: Option<(Seq<char>, Seq<char>)>,
    body: Seq<u8>,
    out: Result<(), Error>,
) -> bool {
    if !media_type_allows(declared, "x-www-form-urlencoded"@) {
        out matches Err(error) && error@.is_plain(400, form_refusal())
    } else {
        bounds_keys(body, form_failure(), out)
    }
}

/// Refuses a message with the headers `headers` whose body `body` is not to
/// be read as a form: as a bad request where it declares another media type,
/// as an internal error where a key is nested too deeply.
pub fn expect_form(headers: &Headers, body: &[u8]) -> (out: Result<(), Error>)
    ensures
        admits_form(content_type_of(*headers), body@, out),
{
    if !allows(headers, "x-www-form-urlencoded") {
        return Err(
            Error::bad_request("Content should be of type `application/x-www-form-urlencoded`."),
        );
    }
    expect_keys_fit(body, "Unable to parse body as form data.")
}

/// Refuses the query `query` if one of its keys is nested too deeply.
pub fn expect_query(query: &str) -> (out: Result<(), Error>)
    ensures
        bounds_keys(query.spec_bytes(), query_failure(), out),
{
    expect_keys_fit(query.as_bytes(), "Unable to deserialize URI query.")
}

/// What is handed out for the outcome `decoded` of reading a body as a form,
/// where the decoder says in words why it failed.
pub fn form_outcome<T>(decoded: Result<T, String>) -> (out: Result<T, Error>)
    ensures
        match decoded {
            Ok(value) => out == Ok::<T, Error>(value),
            Err(why) => out matches Err(error) && blames(error@, form_failure(), why@),
        },
{
    decoded_or_blamed(decoded, "Unable to parse body as form data.")
}

/// What is handed out for the outcome `decoded` of reading a query, where
/// the decoder says in words why it failed.
pub fn query_outcome<T>(decoded: Result<T, String>) -> (out: Result<T, Error>)
    ensures
        match decoded {
            Ok(value) => out == Ok::<T, Error>(value),
            Err(why) => out matches Err(error) && blames(error@, query_failure(), why@),
        },
{
    decoded_or_blamed(decoded, "Unable to deserialize URI query.")
}

/// What reading a body as `application/` followed by `subtype` gives, where
/// the message declares `declared` and the decoder makes `decoded` of the
/// bytes: a bad request described as `refusal` where the declared type does
/// not allow the reading, else what [`decoded_or_internal`] hands out.
pub open spec fn read_as<E: Display>(
    declared: Option<(Seq<char>, Seq<char>)>,
    subtype: Seq<char>,
    refusal: Seq<char>,
    decoded: Result<Value, E>,
    failure: Seq<char>,
    out: Result<Value, Error>,
) -> bool {
    if !media_type_allows(declared, subtype) {
        out matches Err(error) && error@.is_plain(400, refusal)
    } else {
        match decoded {
            Ok(value) => out == Ok::<Value, Error>(value),
            Err(why) => out matches Err(error) && reports(error@, failure, why),
        }
    }
}

/// What reading the form or query `bytes` gives once it is admitted: an
/// internal error described as `failure` where a key is nested too deeply,
/// else the map that the decoder reads, or an internal error with the words
/// of the decoder as its cause.
pub open spec fn decodes_form(bytes: Seq<u8>, failure: Seq<char>, out: Result<Value, Error>) -> bool {
    if !keys_are_shallow(bytes) {
        out matches Err(error) && blames(error@, failure, depth_fault())
    } else {
        match form_decoded(bytes) {
            Ok(value) => out == Ok::<Value, Error>(value),
            Err(why) => out matches Err(error) && blames(error@, failure, why),
        }
    }
}

/// What reading the body `body` of a message that declares `declared` as a
/// form gives: a bad request where the declared type does not allow the
/// reading, else what [`decodes_form`] says.
pub open spec fn reads_form(
    declared: Option<(Seq<char>, Seq<char>)>,
    body: Seq<u8>,
    out: Result<Value, Error>,
) -> bool {
    if !media_type_allows(declared, "x-www-form-urlencoded"@) {
        out matches Err(error) && error@.is_plain(400, form_refusal())
    } else {
        decodes_form(body, form_failure(), out)
    }
}

/// The text that the bytes `body` encode.
pub fn read_text<'a>(body: &'a [u8]) -> (out: Result<&'a str, Error>)
    ensures
        out is Ok <==> valid_utf8(body@),
        out matches Ok(text) ==> text.spec_bytes() == body@,
        out matches Err(error) ==> reports(error@, text_failure(), utf8_fault(body@)),
{
    decoded_or_internal(decode_utf8(body), "Unable to parse body as string.")
}

/// The JSON value that the bytes `body` of a message with the headers
/// `headers` encode.
pub fn read_json(headers: &Headers, body: &[u8]) -> (out: Result<Value, Error>)
    ensures
        read_as(
            content_type_of(*headers),
            "json"@,
            json_refusal(),
            json_decoded(body@),
            json_failure(),
            out,
        ),
{
    match expect_json(headers) {
        Ok(()) => json_outcome(decode_json(body)),
        Err(error) => Err(error),
    }
}

/// The form that the bytes `body` of a message with the headers `headers`
/// encode, as a JSON object.
pub fn read_form(headers: &Headers, body: &[u8]) -> (out: Result<Value, Error>)
    ensures
        reads_form(content_type_of(*headers), body@, out),
{
    match expect_form(headers, body) {
        Ok(()) => form_outcome(decode_form(body)),
        Err(error) => Err(error),
    }
}

/// The parameters that the query `query` encodes, as a JSON object.
pub fn read_query(query: &str) -> (out: Result<Value, Error>)
    ensures
        decodes_form(query.spec_bytes(), query_failure(), out),
{
    match expect_query(query) {
        Ok(()) => query_outcome(decode_form(query.as_bytes())),
        Err(error) => Err(error),
    }
}

/// Whether headers that held `lines_before` hold `lines_after` and read as
/// `declared_after` once the body has been declared as JSON in them.
pub open spec fn declares_json(
    lines_before: HeaderLines,
    lines_after: HeaderLines,
    declared_after: Option<(Seq<char>, Seq<char>)>,
) -> bool {
    &&& lines_after == lines_before.insert(content_type_field(), seq![json_media_type()])
    &&& declared_after == media_type_in(json_media_type())
}

/// What becomes of a message whose headers read as `declared` and whose
/// body is `body`, once the outcome `encoded` of writing a value as JSON is
/// to be its body: the bytes as the body, declared as JSON; or, where there
/// are none, the message as it was and the internal error that reports the
/// failure.
pub open spec fn writes_json<E: Display>(
    encoded: Result<Seq<u8>, E>,
    lines_before: HeaderLines,
    lines_after: HeaderLines,
    declared_before: Option<(Seq<char>, Seq<char>)>,
    declared_after: Option<(Seq<char>, Seq<char>)>,
    body_before: Seq<u8>,
    body_after: Seq<u8>,
    out: Result<(), Error>,
) -> bool {
    match encoded {
        Ok(bytes) => {
            &&& out is Ok
            &&& body_after == bytes
            &&& declares_json(lines_before, lines_after, declared_after)
        },
        Err(why) => {
            &&& out matches Err(error) && reports(error@, encoding_failure(), why)
            &&& body_after == body_before
            &&& lines_after == lines_before
            &&& declared_after == declared_before
        },
    }
}

/// The bytes of an encoding, where there is one.
pub open spec fn encoding_view<E>(encoded: Result<Vec<u8>, E>) -> Result<Seq<u8>, E> {
    match encoded {
        Ok(bytes) => Ok(bytes@),
        Err(why) => Err(why),
    }
}

/// Makes the bytes of `encoded` the body `body` and declares in `headers`
/// that the body is JSON. Where `encoded` holds no bytes, both are left as
/// they were.
pub fn json_written<E: Display>(
    headers: &mut Headers,
    body: &mut Vec<u8>,
    encoded: Result<Vec<u8>, E>,
) -> (out: Result<(), Error>)
    ensures
        writes_json(
            encoding_view(encoded),
            header_lines(*old(headers)),
            header_lines(*final(headers)),
            content_type_of(*old(headers)),
            content_type_of(*final(headers)),
            old(body)@,
            final(body)@,
            out,
        ),
        encoded is Err ==> *final(headers) == *old(headers) && *final(body) == *old(body),
{
    match encoded {
        Ok(bytes) => {
            *body = bytes;
            declare_json(headers);
            Ok(())
        },
        Err(why) => {
            let cause = Cause::describe(&why);
            Err(Error::internal("Unable to serialize data into JSON.").with_cause(cause))
        },
    }
}

/// Writes `json` as the body `body` and declares in `headers` that the body
/// is JSON. Where `json` cannot be written, both are left as they were.
pub fn write_json(headers: &mut Headers, body: &mut Vec<u8>, json: &Value) -> (out: Result<
    (),
    Error,
>)
    ensures
        writes_json(
            json_encoded(*json),
            header_lines(*old(headers)),
            header_lines(*final(headers)),
            content_type_of(*old(headers)),
            content_type_of(*final(headers)),
            old(body)@,
            final(body)@,
            out,
        ),
        json_encoded(*json) is Err ==> *final(headers) == *old(headers) && *final(body) == *old(
            body,
        ),
{
    json_written(headers, body, encode_json(json))
}

} // verus!
