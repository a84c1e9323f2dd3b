//! The request: matching of segments, values left with it, and its body.
use hyper::header::{ContentLength, ContentType};
use hyper::{Headers, Method, StatusCode};
use serde_json::Value;
use writium::proto::Request;

fn request_at(segs: &[&str]) -> Request {
    Request::new(Method::Get).with_path_segs(segs)
}

fn left(req: &Request) -> Vec<&str> {
    req.path_segs().iter().map(|s| s.as_str()).collect()
}

fn json(text: &str) -> Value {
    serde_json::from_str(text).unwrap()
}

#[test]
fn new_request_is_empty() {
    let req = Request::new(Method::Put);
    assert_eq!(req.method(), Method::Put);
    assert_eq!(req.query(), "");
    assert!(req.path_segs().is_empty());
    assert_eq!(req.headers().len(), 0);
    assert!(req.body().is_empty());
    assert_eq!(req.extra::<u32>("any"), None);
}

#[test]
fn method_with_a_name_of_its_own_is_kept() {
    let req = Request::new(Method::Extension("PURGE".to_string()));
    assert_eq!(req.method(), Method::Extension("PURGE".to_string()));
}

#[test]
fn match_seg_takes_the_first_segment() {
    let mut req = request_at(&["a", "b"]);
    assert!(req.match_seg("a"));
    assert_eq!(left(&req), vec!["b"]);
    assert!(req.match_seg("b"));
    assert!(left(&req).is_empty());
}

#[test]
fn match_seg_leaves_a_request_that_does_not_match() {
    let mut req = request_at(&["a", "b"]);
    assert!(!req.match_seg("b"));
    assert_eq!(left(&req), vec!["a", "b"]);
    assert!(!req.match_seg(""));
    assert_eq!(left(&req), vec!["a", "b"]);
    let mut none = request_at(&[]);
    assert!(!none.match_seg("a"));
    assert!(!none.match_seg(""));
    assert!(left(&none).is_empty());
}

#[test]
fn match_seg_takes_an_empty_segment() {
    let mut req = request_at(&["", "a"]);
    assert!(req.match_seg(""));
    assert_eq!(left(&req), vec!["a"]);
}

#[test]
fn match_segs_takes_exactly_the_name() {
    let mut req = request_at(&["books", "content", "42"]);
    assert!(req.match_segs(&["books", "content"]));
    assert_eq!(left(&req), vec!["42"]);
}

#[test]
fn match_segs_takes_each_name_once() {
    let mut req = request_at(&["a", "a", "b"]);
    assert!(req.match_segs(&["a"]));
    assert_eq!(left(&req), vec!["a", "b"]);
    assert!(req.match_segs(&["a"]));
    assert_eq!(left(&req), vec!["b"]);
    assert!(!req.match_segs(&["a"]));
    assert_eq!(left(&req), vec!["b"]);
}

#[test]
fn match_segs_leaves_a_request_that_does_not_match() {
    let mut req = request_at(&["books", "content"]);
    assert!(!req.match_segs(&["books", "cover"]));
    assert_eq!(left(&req), vec!["books", "content"]);
    assert!(!req.match_segs(&["content"]));
    assert_eq!(left(&req), vec!["books", "content"]);
    assert!(!req.match_segs(&["Books"]));
    assert_eq!(left(&req), vec!["books", "content"]);
}

#[test]
fn match_segs_needs_as_many_segments_as_the_name_has() {
    let mut req = request_at(&["books"]);
    assert!(!req.match_segs(&["books", "content"]));
    assert_eq!(left(&req), vec!["books"]);
    let mut none = request_at(&[]);
    assert!(!none.match_segs(&["books"]));
    assert!(left(&none).is_empty());
}

#[test]
fn match_segs_with_the_empty_name_always_matches() {
    let mut req = request_at(&["a"]);
    assert!(req.match_segs(&[]));
    assert_eq!(left(&req), vec!["a"]);
    let mut none = request_at(&[]);
    assert!(none.match_segs(&[]));
    assert!(left(&none).is_empty());
}

#[test]
fn match_segs_can_take_every_segment() {
    let mut req = request_at(&["a", "b"]);
    assert!(req.match_segs(&["a", "b"]));
    assert!(left(&req).is_empty());
}

#[test]
fn match_segs_keeps_the_rest_of_the_request() {
    let mut req = request_at(&["a", "b"]).with_query("q=1").with_body(b"xyz".to_vec());
    req.set_extra("n", 3u8);
    assert!(req.match_segs(&["a"]));
    assert_eq!(req.query(), "q=1");
    assert_eq!(req.body(), b"xyz");
    assert_eq!(req.extra::<u8>("n"), Some(&3u8));
    assert_eq!(req.method(), Method::Get);
}

#[test]
fn match_seg_if_takes_a_segment_that_the_predicate_accepts() {
    let mut req = request_at(&["42", "rest"]);
    let taken = req.match_seg_if(|s| s.chars().all(|c| c.is_ascii_digit()));
    assert_eq!(taken, Some("42".to_string()));
    assert_eq!(left(&req), vec!["rest"]);
}

#[test]
fn match_seg_if_leaves_a_segment_that_the_predicate_refuses() {
    let mut req = request_at(&["x42", "rest"]);
    let taken = req.match_seg_if(|s| s.chars().all(|c| c.is_ascii_digit()));
    assert_eq!(taken, None);
    assert_eq!(left(&req), vec!["x42", "rest"]);
}

#[test]
fn match_seg_if_on_no_segment_does_not_ask() {
    let mut req = request_at(&[]);
    let taken = req.match_seg_if(|_| panic!("asked about a segment that is not there"));
    assert_eq!(taken, None);
}

#[test]
fn match_segs_while_takes_the_accepted_prefix() {
    let mut req = request_at(&["1", "22", "x", "3"]);
    let taken = req.match_segs_while(|s| s.chars().all(|c| c.is_ascii_digit()));
    assert_eq!(taken, vec!["1".to_string(), "22".to_string()]);
    assert_eq!(left(&req), vec!["x", "3"]);
}

#[test]
fn match_segs_while_can_take_all_or_nothing() {
    let mut all = request_at(&["a", "b"]);
    assert_eq!(all.match_segs_while(|_| true), vec!["a".to_string(), "b".to_string()]);
    assert!(left(&all).is_empty());
    let mut nothing = request_at(&["a", "b"]);
    assert!(nothing.match_segs_while(|_| false).is_empty());
    assert_eq!(left(&nothing), vec!["a", "b"]);
    let mut none = request_at(&[]);
    assert!(none.match_segs_while(|_| true).is_empty());
}

#[test]
fn set_path_segs_takes_segments_as_they_are() {
    let mut req = request_at(&["old"]);
    req.set_path_segs(&["..", ".", "", "a/b"]);
    assert_eq!(left(&req), vec!["..", ".", "", "a/b"]);
}

#[test]
fn extra_gives_back_what_was_left_under_the_key() {
    let mut req = Request::new(Method::Get);
    req.set_extra("isbn", "978-1-107-63682-8".to_string());
    req.set_extra("page", 12u32);
    assert_eq!(req.extra::<String>("isbn"), Some(&"978-1-107-63682-8".to_string()));
    assert_eq!(req.extra::<u32>("page"), Some(&12u32));
}

#[test]
fn extra_of_another_type_or_key_is_none() {
    let mut req = Request::new(Method::Get);
    req.set_extra("page", 12u32);
    assert_eq!(req.extra::<u64>("page"), None);
    assert_eq!(req.extra::<String>("page"), None);
    assert_eq!(req.extra::<u32>("Page"), None);
    assert_eq!(req.extra::<u32>(""), None);
}

#[test]
fn extra_under_a_key_is_replaced_by_the_next() {
    let mut req = Request::new(Method::Get);
    req.set_extra("k", 1u32);
    req.set_extra("other", 10u32);
    req.set_extra("k", 2u32);
    assert_eq!(req.extra::<u32>("k"), Some(&2u32));
    assert_eq!(req.extra::<u32>("other"), Some(&10u32));
    req.set_extra("k", "text");
    assert_eq!(req.extra::<u32>("k"), None);
    assert_eq!(req.extra::<&str>("k"), Some(&"text"));
    assert_eq!(req.extra::<u32>("other"), Some(&10u32));
}

#[test]
fn to_str_reads_utf8() {
    let req = Request::new(Method::Post).with_body("gr\u{fc}n".as_bytes().to_vec());
    assert_eq!(req.to_str().unwrap(), "gr\u{fc}n");
    let empty = Request::new(Method::Post);
    assert_eq!(empty.to_str().unwrap(), "");
}

#[test]
fn to_str_refuses_what_is_not_utf8() {
    let req = Request::new(Method::Post).with_body(vec![0x66, 0xff, 0x6f]);
    let err = req.to_str().unwrap_err();
    assert_eq!(err.status(), StatusCode::InternalServerError);
    assert_eq!(err.description(), "Unable to parse body as string.");
    let cause = err.cause().unwrap();
    assert!(cause.message().contains("invalid utf-8"));
    assert!(cause.source().is_none());
    assert_eq!(err.headers().len(), 0);
}

#[test]
fn to_json_reads_a_body_without_content_type() {
    let req = Request::new(Method::Post).with_body(b"{\"x\":1}".to_vec());
    assert_eq!(req.to_json().unwrap(), json("{\"x\":1}"));
}

#[test]
fn to_json_reads_a_body_declared_as_json() {
    let mut headers = Headers::new();
    headers.set(ContentType::json());
    let req = Request::new(Method::Post).with_headers(headers).with_body(b"[1, 2]".to_vec());
    assert_eq!(req.to_json().unwrap(), json("[1,2]"));
    let req = Request::new(Method::Post)
        .with_header("content-type", "Application/JSON; charset=utf-8")
        .with_body(b"null".to_vec());
    assert_eq!(req.to_json().unwrap(), Value::Null);
}

#[test]
fn to_json_refuses_a_body_declared_as_something_else() {
    let req = Request::new(Method::Post)
        .with_header("Content-Type", "text/plain")
        .with_body(b"{\"x\":1}".to_vec());
    let err = req.to_json().unwrap_err();
    assert_eq!(err.status(), StatusCode::BadRequest);
    assert_eq!(err.description(), "Content should be of type `application/json`.");
    assert!(err.cause().is_none());
    let req = Request::new(Method::Post)
        .with_header("Content-Type", "text/json")
        .with_body(b"{}".to_vec());
    assert_eq!(req.to_json().unwrap_err().status(), StatusCode::BadRequest);
    let req = Request::new(Method::Post)
        .with_header("Content-Type", "application/ld+json")
        .with_body(b"{}".to_vec());
    assert_eq!(req.to_json().unwrap_err().status(), StatusCode::BadRequest);
}

#[test]
fn to_json_reads_a_body_whose_content_type_cannot_be_read() {
    let req = Request::new(Method::Post)
        .with_header("Content-Type", "not a media type")
        .with_body(b"{\"x\":1}".to_vec());
    assert_eq!(req.to_json().unwrap(), json("{\"x\":1}"));
}

#[test]
fn to_json_reports_a_body_that_is_not_json() {
    let req = Request::new(Method::Post)
        .with_header("Content-Type", "application/json")
        .with_body(b"{\"x\":".to_vec());
    let err = req.to_json().unwrap_err();
    assert_eq!(err.status(), StatusCode::InternalServerError);
    assert_eq!(err.description(), "Unable to deserialize body as JSON.");
    let cause = err.cause().unwrap();
    assert!(cause.message().contains("EOF"));
    assert!(cause.source().is_none());
}

#[test]
fn to_json_looks_at_the_content_type_before_the_body() {
    let req = Request::new(Method::Post)
        .with_header("Content-Type", "text/plain")
        .with_body(b"not json".to_vec());
    assert_eq!(req.to_json().unwrap_err().status(), StatusCode::BadRequest);
}

#[test]
fn to_form_reads_a_form() {
    let req = Request::new(Method::Post)
        .with_header("Content-Type", "application/x-www-form-urlencoded")
        .with_body(b"name=Alice+B&age=24&tag%5B0%5D=a".to_vec());
    assert_eq!(
        req.to_form().unwrap(),
        json("{\"name\":\"Alice B\",\"age\":\"24\",\"tag[0]\":\"a\"}")
    );
    let req = Request::new(Method::Post).with_body(b"a[b]=1&a[c]=2&l[0]=x&l[1]=y".to_vec());
    assert_eq!(req.to_form().unwrap(), json("{\"a\":{\"b\":\"1\",\"c\":\"2\"},\"l\":[\"x\",\"y\"]}"));
    let req = Request::new(Method::Post);
    assert_eq!(req.to_form().unwrap(), json("{}"));
}

#[test]
fn to_form_refuses_a_body_declared_as_something_else() {
    let req = Request::new(Method::Post)
        .with_header("Content-Type", "application/json")
        .with_body(b"a=1".to_vec());
    let err = req.to_form().unwrap_err();
    assert_eq!(err.status(), StatusCode::BadRequest);
    assert_eq!(
        err.description(),
        "Content should be of type `application/x-www-form-urlencoded`."
    );
    assert!(err.cause().is_none());
}

#[test]
fn to_form_reports_a_body_that_is_no_form() {
    let req = Request::new(Method::Post).with_body(b"a[[b]=1".to_vec());
    let err = req.to_form().unwrap_err();
    assert_eq!(err.status(), StatusCode::InternalServerError);
    assert_eq!(err.description(), "Unable to parse body as form data.");
    assert!(err.cause().unwrap().message().contains("bracket"));
    let req = Request::new(Method::Post).with_body(b"a=1&a=2".to_vec());
    let err = req.to_form().unwrap_err();
    assert_eq!(err.status(), StatusCode::InternalServerError);
    assert!(err.cause().unwrap().message().contains("Multiple values"));
    let req = Request::new(Method::Post).with_body(b"a=%ff".to_vec());
    assert_eq!(req.to_form().unwrap_err().status(), StatusCode::InternalServerError);
}

#[test]
fn to_param_reads_the_query() {
    let req = Request::new(Method::Get).with_query("id=7&lang=en");
    assert_eq!(req.to_param().unwrap(), json("{\"id\":\"7\",\"lang\":\"en\"}"));
    let req = Request::new(Method::Get);
    assert_eq!(req.to_param().unwrap(), json("{}"));
}

#[test]
fn to_param_does_not_look_at_the_content_type() {
    let req = Request::new(Method::Get)
        .with_header("Content-Type", "text/plain")
        .with_query("a=1");
    assert_eq!(req.to_param().unwrap(), json("{\"a\":\"1\"}"));
}

#[test]
fn to_param_reports_a_query_that_cannot_be_read() {
    let req = Request::new(Method::Get).with_query("a[[b]=1");
    let err = req.to_param().unwrap_err();
    assert_eq!(err.status(), StatusCode::InternalServerError);
    assert_eq!(err.description(), "Unable to deserialize URI query.");
    assert!(err.cause().is_some());
}

#[test]
fn set_json_writes_the_body_and_declares_it() {
    let mut req = Request::new(Method::Post).with_header("X-Trace", "abc");
    req.set_json(&json("{\"x\":1}")).unwrap();
    assert_eq!(req.body(), b"{\"x\":1}");
    assert_eq!(
        req.headers().get_raw("content-type").unwrap(),
        "application/json; charset=UTF-8"
    );
    assert_eq!(req.headers().get_raw("x-trace").unwrap(), "abc");
    assert_eq!(req.headers().len(), 2);
    assert_eq!(req.to_json().unwrap(), json("{\"x\":1}"));
}

#[test]
fn with_json_gives_a_request_that_reads_back() {
    let value = json("{\"list\":[1,2,3],\"name\":\"n\",\"none\":null}");
    let req = Request::new(Method::Post).with_json(&value).unwrap();
    assert_eq!(req.to_json().unwrap(), value);
    assert_eq!(req.to_form().unwrap_err().status(), StatusCode::BadRequest);
}

#[test]
fn set_header_replaces_a_field_in_any_case_of_its_name() {
    let mut req = Request::new(Method::Get);
    req.set_header("X-Token", "one");
    req.set_header("x-token", "two");
    req.set_header("Other", "three");
    assert_eq!(req.headers().len(), 2);
    assert_eq!(req.headers().get_raw("X-TOKEN").unwrap(), "two");
    assert_eq!(req.headers().get_raw("other").unwrap(), "three");
}

#[test]
fn set_header_is_read_by_typed_headers() {
    let req = Request::new(Method::Get).with_header("Content-Length", "17");
    assert_eq!(req.headers().get::<ContentLength>(), Some(&ContentLength(17)));
}

#[test]
fn set_headers_replaces_the_collection() {
    let mut headers = Headers::new();
    headers.set(ContentLength(3));
    let mut req = Request::new(Method::Get).with_header("X-Old", "1");
    req.set_headers(headers);
    assert_eq!(req.headers().len(), 1);
    assert!(req.headers().get_raw("x-old").is_none());
    assert_eq!(req.headers().get::<ContentLength>(), Some(&ContentLength(3)));
}

#[test]
fn set_body_and_set_query_replace() {
    let mut req = Request::new(Method::Get).with_body(b"one".to_vec()).with_query("a");
    req.set_body(b"two".to_vec());
    req.set_query("b");
    assert_eq!(req.body(), b"two");
    assert_eq!(req.query(), "b");
}
