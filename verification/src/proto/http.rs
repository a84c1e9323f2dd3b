//! What this crate takes from `hyper`: the method, the status code, the URI
//! and the header collection of a message.
//!
//! Verus does not read `hyper`. The four types are declared to it as opaque
//! values, each function of `hyper` that the crate calls is given a contract
//! here, and the contracts speak of what a value holds through the names
//! below. Nothing in this file is proved; the rest of the crate is proved
//! from it. The types are imported under other names here, because the crate
//! offers them to its users under their own.
use crate::text::ascii_lower;
use hyper::header::ContentType;
use hyper::Headers as HttpHeaders;
use hyper::Method as HttpMethod;
use hyper::StatusCode as HttpStatus;
use hyper::Uri as HttpUri;
use vstd::prelude::*;

verus! {

/// `hyper::Method`, carried through and never looked into.
#[verifier::external_type_specification]
#[verifier::external_body]
pub struct ExMethod(HttpMethod);

/// `hyper::StatusCode`, known by its [`status_number`].
#[verifier::external_type_specification]
#[verifier::external_body]
pub struct ExStatusCode(HttpStatus);

/// `hyper::Uri`, known by its [`uri_path`] and its [`uri_query`].
#[verifier::external_type_specification]
#[verifier::external_body]
pub struct ExUri(HttpUri);

/// `hyper::Headers`, known by its [`header_lines`] and by the
/// [`content_type_of`] it carries.
#[verifier::external_type_specification]
#[verifier::external_body]
pub struct ExHeaders(HttpHeaders);

/// What a header collection holds: under each field name, in lower case, the
/// lines of that field's value.
pub type HeaderLines = Map<Seq<char>, Seq<Seq<u8>>>;

/// The number of the status code `status`: the one that `StatusCode::as_u16`
/// gives, by which `hyper` compares codes and tells their classes apart.
pub uninterp spec fn status_number(status: HttpStatus) -> u16;

/// The path of `uri`, as `Uri::path` gives it.
pub uninterp spec fn uri_path(uri: HttpUri) -> Seq<char>;

/// The query of `uri` without its `?`, as `Uri::query` gives it.
pub uninterp spec fn uri_query(uri: HttpUri) -> Option<Seq<char>>;

/// What `headers` holds.
pub uninterp spec fn header_lines(headers: HttpHeaders) -> HeaderLines;

/// The type and subtype of the media type that `headers` gives as its
/// `Content-Type`, where it has that field and `hyper` can read the value.
pub uninterp spec fn content_type_of(headers: HttpHeaders) -> Option<(Seq<char>, Seq<char>)>;

/// The type and subtype of the media type that `hyper` reads from a
/// `Content-Type` field whose value is the one line `line`, where it can
/// read one: what `ContentType::parse_header` makes of that line.
pub uninterp spec fn media_type_in(line: Seq<u8>) -> Option<(Seq<char>, Seq<char>)>;

/// The field name under which the media type of a body is given.
pub open spec fn content_type_field() -> Seq<char> {
    "content-type"@
}

/// What is read as the `Content-Type` of a collection that read as `before`,
/// once the one line `value` has been put under the field `name`: what the
/// line reads as where the field is `Content-Type`, and `before` where it is
/// another.
pub open spec fn content_type_after(
    before: Option<(Seq<char>, Seq<char>)>,
    name: Seq<char>,
    value: Seq<u8>,
) -> Option<(Seq<char>, Seq<char>)> {
    if ascii_lower(name) == content_type_field() {
        media_type_in(value)
    } else {
        before
    }
}

/// Trusted: `Clone` for `hyper::Method` is derived, so the copy is the value.
pub assume_specification[ <HttpMethod as Clone>::clone ](method: &HttpMethod) -> (copy: HttpMethod)
    ensures
        copy == *method,
;

/// Trusted: `StatusCode::is_client_error` holds of the codes 400 to 499.
pub assume_specification[ HttpStatus::is_client_error ](status: &HttpStatus) -> (yes: bool)
    ensures
        yes == (400 <= status_number(*status) <= 499),
;

/// Trusted: `StatusCode::is_server_error` holds of the codes 500 to 599.
pub assume_specification[ HttpStatus::is_server_error ](status: &HttpStatus) -> (yes: bool)
    ensures
        yes == (500 <= status_number(*status) <= 599),
;

/// Trusted: `StatusCode::try_from` accepts the numbers 100 to 599 and no
/// others, and the code it gives has the number it was given.
#[verifier::external_body]
pub(crate) fn status_from(number: u16) -> (status: Option<HttpStatus>)
    ensures
        status is Some <==> 100 <= number <= 599,
        status matches Some(s) ==> status_number(s) == number,
{
    HttpStatus::try_from(number).ok()
}

/// Trusted: `Uri::path` gives the path of the URI.
pub assume_specification<'a>[ HttpUri::path ](uri: &'a HttpUri) -> (path: &'a str)
    ensures
        path@ == uri_path(*uri),
;

/// Trusted: `Uri::query` gives the query of the URI, if it has one.
pub assume_specification<'a>[ HttpUri::query ](uri: &'a HttpUri) -> (query: Option<&'a str>)
    ensures
        query is Some <==> uri_query(*uri) is Some,
        query matches Some(q) ==> uri_query(*uri) == Some(q@),
;

/// Trusted: `Headers::new` gives a collection that holds nothing, and so
/// no `Content-Type` either.
pub assume_specification[ HttpHeaders::new ]() -> (headers: HttpHeaders)
    ensures
        header_lines(headers) == HeaderLines::empty(),
        content_type_of(headers) is None,
;

/// Trusted: `Headers::set_raw` puts the one line `value` under `name`, in
/// place of what was held under that name in any case of its letters, and
/// leaves every other field as it was. A `Content-Type` put so is held as
/// that line alone, so what is read of it is read from the line; under any
/// other name the `Content-Type` stays what it was.
#[verifier::external_body]
pub(crate) fn set_raw_header(headers: &mut HttpHeaders, name: String, value: Vec<u8>)
    ensures
        header_lines(*final(headers)) == header_lines(*old(headers)).insert(
            ascii_lower(name@),
            seq![value@],
        ),
        content_type_of(*final(headers)) == (if ascii_lower(name@) == content_type_field() {
            media_type_in(value@)
        } else {
            content_type_of(*old(headers))
        }),
{
    headers.set_raw(name, value)
}

/// Trusted: the type and subtype that `hyper` reads from the `Content-Type`
/// field. The field is taken from a copy with `Headers::remove`, which gives
/// `None` where `Headers::get` would stop the program on a field that is
/// held in another typed form only.
#[verifier::external_body]
pub(crate) fn content_type(headers: &HttpHeaders) -> (found: Option<(String, String)>)
    ensures
        found is Some <==> content_type_of(*headers) is Some,
        found matches Some(pair) ==> content_type_of(*headers) == Some((pair.0@, pair.1@)),
{
    headers.clone().remove::<ContentType>().map(
        |ct| (ct.0.type_().as_str().to_owned(), ct.0.subtype().as_str().to_owned()),
    )
}

} // verus!
