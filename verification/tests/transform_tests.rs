use api::identity;
use api::Api;
use api::Headers;
use api::HttpResponse;
use api::Method;
use api::Query;
use std::io;

struct TestApi {
    n: u8,
}

impl TestApi {
    fn new(n: u8) -> TestApi {
        TestApi { n: n }
    }
}

impl Api for TestApi {
    type Reply = Vec<u8>;
    type Body = io::Empty;
    type Error = ();

    fn method(&self) -> Method {
        Method::Post
    }

    fn path(&self) -> String {
        "/top".to_string()
    }

    fn query(&self) -> Query {
        vec![("n".to_string(), self.n.to_string())]
    }

    fn headers(&self) -> Headers {
        Headers::new()
    }

    fn body(&self) -> io::Empty {
        io::empty()
    }

    fn parse<Resp>(&self, _resp: &mut Resp) -> Result<Vec<u8>, ()>
    where
        Resp: HttpResponse,
    {
        Ok(vec![])
    }
}

#[test]
fn transform_request_identity() {
    let api = TestApi::new(10);

    let t_api = api.transform(identity, identity, identity);

    assert_eq!(api.headers(), t_api.headers());
    assert_eq!(api.query(), t_api.query());
}

#[test]
fn transform_api_append_data() {
    let api = TestApi::new(10);

    let t_api = api.transform(
        |mut h: Headers| {
            h.insert("X-Request-ID".to_string(), vec!["abcdef123".to_string()]);
            h
        },
        |mut q: Query| {
            q.push(("foo".to_string(), "bar".to_string()));
            q
        },
        identity,
    );

    let mut expected_headers = Headers::new();
    expected_headers.insert("X-Request-ID".to_string(), vec!["abcdef123".to_string()]);

    let expected_query = vec![
        ("n".to_string(), "10".to_string()),
        ("foo".to_string(), "bar".to_string()),
    ];

    assert_eq!(expected_headers, t_api.headers());
    assert_eq!(expected_query, t_api.query());
}

#[test]
fn transform_and_reuse_api() {
    let api = TestApi::new(10);

    let t1_api = api.transform(
        |mut h: Headers| {
            h.insert("X-Request-ID".to_string(), vec!["abcdef123".to_string()]);
            h
        },
        |mut q: Query| {
            q.push(("foo".to_string(), "bar".to_string()));
            q
        },
        identity::<io::Empty>,
    );

    let t2_api = api.transform(
        |mut h: Headers| {
            h.insert("X-Request-ID".to_string(), vec!["321fedcba".to_string()]);
            h
        },
        identity::<Query>,
        identity::<io::Empty>,
    );

    // check t1
    let mut expected_headers = Headers::new();
    expected_headers.insert("X-Request-ID".to_string(), vec!["abcdef123".to_string()]);

    let expected_query = vec![
        ("n".to_string(), "10".to_string()),
        ("foo".to_string(), "bar".to_string()),
    ];

    assert_eq!(expected_headers, t1_api.headers());
    assert_eq!(expected_query, t1_api.query());

    // check t2
    let mut expected_headers = Headers::new();
    expected_headers.insert("X-Request-ID".to_string(), vec!["321fedcba".to_string()]);

    assert_eq!(expected_headers, t2_api.headers());
    assert_eq!(api.query(), t2_api.query());
}

#[test]
fn transform_of_transform_applies_in_wrap_order() {
    let api = TestApi::new(10);

    let inner = api.transform(
        |mut h: Headers| {
            h.insert("X-Stage".to_string(), vec!["inner".to_string()]);
            h
        },
        |mut q: Query| {
            q.push(("foo".to_string(), "bar".to_string()));
            q
        },
        identity::<io::Empty>,
    );

    // The outer rewrites see the already-rewritten inner results: the
    // outer header rewrite overwrites the entry the inner one added,
    // and the outer query pair lands after the inner one.
    let outer = inner.transform(
        |mut h: Headers| {
            h.insert("X-Stage".to_string(), vec!["outer".to_string()]);
            h
        },
        |mut q: Query| {
            q.push(("baz".to_string(), "qux".to_string()));
            q
        },
        identity::<io::Empty>,
    );

    let mut expected_headers = Headers::new();
    expected_headers.insert("X-Stage".to_string(), vec!["outer".to_string()]);

    let expected_query = vec![
        ("n".to_string(), "10".to_string()),
        ("foo".to_string(), "bar".to_string()),
        ("baz".to_string(), "qux".to_string()),
    ];

    assert_eq!(expected_headers, outer.headers());
    assert_eq!(expected_query, outer.query());
    // Method and path pass through both wraps unchanged.
    assert_eq!("POST".to_string(), outer.method().to_string());
    assert_eq!("/top".to_string(), outer.path());
}

#[test]
fn transform_leaves_the_original_unchanged() {
    let api = TestApi::new(10);

    let t_api = api.transform(
        |mut h: Headers| {
            h.insert("X-Request-ID".to_string(), vec!["abcdef123".to_string()]);
            h
        },
        |mut q: Query| {
            q.push(("foo".to_string(), "bar".to_string()));
            q
        },
        identity::<io::Empty>,
    );

    let mut expected_headers = Headers::new();
    expected_headers.insert("X-Request-ID".to_string(), vec!["abcdef123".to_string()]);
    assert_eq!(expected_headers, t_api.headers());
    assert_eq!(
        vec![
            ("n".to_string(), "10".to_string()),
            ("foo".to_string(), "bar".to_string()),
        ],
        t_api.query()
    );

    // The wrapped description is not mutated by being wrapped or read.
    assert_eq!(Headers::new(), api.headers());
    assert_eq!(vec![("n".to_string(), "10".to_string())], api.query());
}
