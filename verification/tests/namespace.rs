//! Routing through namespaces.
use hyper::{Method, StatusCode};
use writium::api::{Api, ApiResult};
use writium::error::Error;
use writium::namespace::{gen_api_not_found, Namespace};
use writium::proto::{Request, Response};

/// Answers with its tag and the segments it was left with.
struct Leaf {
    name: &'static [&'static str],
    tag: &'static str,
}

impl Api for Leaf {
    fn name(&self) -> &[&str] {
        self.name
    }

    fn route(&self, req: &mut Request) -> ApiResult {
        let left: Vec<&str> = req.path_segs().iter().map(|s| s.as_str()).collect();
        Ok(Response::new().with_body(format!("{}:{}", self.tag, left.join("/")).into_bytes()))
    }
}

/// Always fails.
struct Broken;

impl Api for Broken {
    fn name(&self) -> &[&str] {
        &["broken"]
    }

    fn route(&self, _req: &mut Request) -> ApiResult {
        Err(Error::forbidden("closed"))
    }
}

/// Leaves the second segment with the request and hands it on.
struct Books {
    inner: Namespace,
}

impl Api for Books {
    fn name(&self) -> &[&str] {
        &["books"]
    }

    fn route(&self, req: &mut Request) -> ApiResult {
        match req.match_seg_if(|s| s.starts_with("978-")) {
            Some(isbn) => req.set_extra("isbn", isbn),
            None => return Err(Error::bad_request("no ISBN")),
        }
        self.inner.route(req)
    }
}

/// Answers with the ISBN that an outer handler left, and with the body.
struct Content;

impl Api for Content {
    fn name(&self) -> &[&str] {
        &["content"]
    }

    fn route(&self, req: &mut Request) -> ApiResult {
        let isbn = match req.extra::<String>("isbn") {
            Some(isbn) => isbn.clone(),
            None => return Err(Error::internal("no ISBN was left")),
        };
        let body = req.to_json()?;
        Ok(Response::new().with_body(format!("{} {}", isbn, body).into_bytes()))
    }
}

fn leaf(name: &'static [&'static str], tag: &'static str) -> Leaf {
    Leaf { name, tag }
}

fn get(segs: &[&str]) -> Request {
    Request::new(Method::Get).with_path_segs(segs)
}

fn body_of(out: ApiResult) -> String {
    String::from_utf8(out.unwrap().body().to_vec()).unwrap()
}

#[test]
fn namespace_keeps_its_name() {
    let ns = Namespace::new(&["api", "v1"]);
    assert_eq!(ns.name(), &["api", "v1"]);
    let ns = ns.with_api(leaf(&["x"], "x"));
    assert_eq!(ns.name(), &["api", "v1"]);
}

#[test]
fn request_goes_to_the_handler_with_its_name() {
    let ns = Namespace::new(&[])
        .with_api(leaf(&["a"], "first"))
        .with_api(leaf(&["b"], "second"))
        .with_api(leaf(&["c", "d"], "third"));
    assert_eq!(body_of(ns.route(&mut get(&["a"]))), "first:");
    assert_eq!(body_of(ns.route(&mut get(&["b", "x", "y"]))), "second:x/y");
    assert_eq!(body_of(ns.route(&mut get(&["c", "d", "e"]))), "third:e");
}

#[test]
fn earlier_handler_wins_over_a_later_one() {
    let ns = Namespace::new(&[])
        .with_api(leaf(&["a"], "short"))
        .with_api(leaf(&["a", "b"], "long"))
        .with_api(leaf(&["a"], "again"));
    assert_eq!(body_of(ns.route(&mut get(&["a", "b"]))), "short:b");
    let ns = Namespace::new(&[])
        .with_api(leaf(&["a", "b"], "long"))
        .with_api(leaf(&["a"], "short"));
    assert_eq!(body_of(ns.route(&mut get(&["a", "b"]))), "long:");
    assert_eq!(body_of(ns.route(&mut get(&["a", "c"]))), "short:c");
}

#[test]
fn unmatched_request_is_not_found() {
    let ns = Namespace::new(&[]).with_api(leaf(&["a"], "a")).with_api(leaf(&["b", "c"], "bc"));
    let inputs: [&[&str]; 6] = [&[], &[""], &["c"], &["b"], &["b", "d"], &["A"]];
    for segs in inputs.iter() {
        let mut req = get(segs);
        let err = ns.route(&mut req).unwrap_err();
        assert_eq!(err.status(), StatusCode::NotFound);
        assert_eq!(err.description(), "Unable to find the requested API.");
        assert!(err.cause().is_none());
        assert_eq!(err.headers().len(), 0);
        let left: Vec<&str> = req.path_segs().iter().map(|s| s.as_str()).collect();
        assert_eq!(&left[..], *segs);
    }
}

#[test]
fn namespace_without_handlers_finds_nothing() {
    let ns = Namespace::new(&[]);
    assert_eq!(ns.route(&mut get(&[])).unwrap_err().status(), StatusCode::NotFound);
    assert_eq!(ns.route(&mut get(&["a"])).unwrap_err().status(), StatusCode::NotFound);
}

#[test]
fn gen_api_not_found_is_the_routing_failure() {
    let err = gen_api_not_found().unwrap_err();
    assert_eq!(err.status(), StatusCode::NotFound);
    assert_eq!(err.description(), "Unable to find the requested API.");
}

#[test]
fn empty_name_first_takes_every_request() {
    let ns = Namespace::new(&[]).with_api(leaf(&[], "fuse")).with_api(leaf(&["a"], "a"));
    assert_eq!(body_of(ns.route(&mut get(&["a"]))), "fuse:a");
    assert_eq!(body_of(ns.route(&mut get(&["a", "b"]))), "fuse:a/b");
    assert_eq!(body_of(ns.route(&mut get(&["z"]))), "fuse:z");
    assert_eq!(body_of(ns.route(&mut get(&[]))), "fuse:");
}

#[test]
fn empty_name_last_takes_what_is_left_over() {
    let ns = Namespace::new(&[]).with_api(leaf(&["a"], "a")).with_api(leaf(&[], "rest"));
    assert_eq!(body_of(ns.route(&mut get(&["a", "x"]))), "a:x");
    assert_eq!(body_of(ns.route(&mut get(&["b", "x"]))), "rest:b/x");
    assert_eq!(body_of(ns.route(&mut get(&[]))), "rest:");
}

#[test]
fn bind_adds_after_the_handlers_bound_before() {
    let mut ns = Namespace::new(&[]);
    ns.bind(leaf(&["a"], "one"));
    ns.bind(leaf(&["a"], "two"));
    ns.bind(leaf(&["b"], "three"));
    assert_eq!(body_of(ns.route(&mut get(&["a"]))), "one:");
    assert_eq!(body_of(ns.route(&mut get(&["b"]))), "three:");
}

#[test]
fn error_of_a_handler_is_handed_on_as_it_is() {
    let ns = Namespace::new(&[]).with_api(Broken).with_api(leaf(&["broken"], "never"));
    let mut req = get(&["broken", "x"]);
    let err = ns.route(&mut req).unwrap_err();
    assert_eq!(err.status(), StatusCode::Forbidden);
    assert_eq!(err.description(), "closed");
    assert_eq!(req.path_segs().len(), 1);
}

#[test]
fn namespaces_nest() {
    let inner = Namespace::new(&["books"]).with_api(leaf(&["content"], "content"));
    let root = Namespace::new(&[]).with_api(inner).with_api(leaf(&["books"], "late"));
    assert_eq!(body_of(root.route(&mut get(&["books", "content", "3"]))), "content:3");
    let mut req = get(&["books", "cover"]);
    let err = root.route(&mut req).unwrap_err();
    assert_eq!(err.status(), StatusCode::NotFound);
    assert_eq!(req.path_segs().len(), 1);
}

#[test]
fn namespace_can_stand_in_two_trees() {
    let shared = Namespace::new(&["s"]).with_api(leaf(&["x"], "x"));
    let one = Namespace::new(&[]).with_api(shared.clone());
    let two = Namespace::new(&[]).with_api(leaf(&["t"], "t")).with_api(shared);
    assert_eq!(body_of(one.route(&mut get(&["s", "x"]))), "x:");
    assert_eq!(body_of(two.route(&mut get(&["s", "x", "y"]))), "x:y");
}

#[test]
fn books_content_is_routed_to_the_leaf() {
    let books = Namespace::new(&["books"]).with_api(Leaf { name: &["content"], tag: "leaf" });
    let root = Namespace::new(&[]).with_api(books);
    let uri = "/books/content".parse().unwrap();
    let mut req = Request::new(Method::Post)
        .with_uri(&uri)
        .with_header("Content-Type", "application/json")
        .with_body(b"{}".to_vec());
    assert_eq!(body_of(root.route(&mut req)), "leaf:");
    assert!(req.path_segs().is_empty());
    assert_eq!(req.body(), b"{}");
}

#[test]
fn leaf_reads_what_an_outer_handler_left() {
    let books = Books { inner: Namespace::new(&[]).with_api(Content) };
    let root = Namespace::new(&[]).with_api(books);
    let uri = "/books/978-1-107-63682-8/content".parse().unwrap();
    let mut req = Request::new(Method::Post)
        .with_uri(&uri)
        .with_header("Content-Type", "application/json")
        .with_body(b"{}".to_vec());
    assert_eq!(body_of(root.route(&mut req)), "978-1-107-63682-8 {}");
    assert_eq!(req.extra::<String>("isbn"), Some(&"978-1-107-63682-8".to_string()));
}

#[test]
fn outer_handler_can_refuse_before_the_leaf() {
    let books = Books { inner: Namespace::new(&[]).with_api(Content) };
    let root = Namespace::new(&[]).with_api(books);
    let mut req = get(&["books", "content"]);
    let err = root.route(&mut req).unwrap_err();
    assert_eq!(err.status(), StatusCode::BadRequest);
    assert_eq!(err.description(), "no ISBN");
}
