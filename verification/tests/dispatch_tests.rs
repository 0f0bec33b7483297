use api::dispatch;
use api::Api;
use api::Headers;
use api::HttpResponse;
use api::Method;
use api::Query;
use api::SendError;
use std::io;

/// A response with a fixed status; its body is empty.
struct StubResponse {
    code: u16,
    stream: io::Empty,
}

impl StubResponse {
    fn new(code: u16) -> StubResponse {
        StubResponse {
            code: code,
            stream: io::empty(),
        }
    }
}

impl HttpResponse for StubResponse {
    type Body = io::Empty;

    fn status(&self) -> u16 {
        self.code
    }

    fn reason(&self) -> &str {
        ""
    }

    fn headers(&self) -> Headers {
        Headers::new()
    }

    fn body(&mut self) -> &mut io::Empty {
        &mut self.stream
    }
}

/// An API whose parse succeeds exactly on status 200.
struct StatusApi {}

impl Api for StatusApi {
    type Reply = u16;
    type Body = io::Empty;
    type Error = String;

    fn method(&self) -> Method {
        Method::Get
    }

    fn path(&self) -> String {
        "/status".to_string()
    }

    fn query(&self) -> Query {
        vec![]
    }

    fn headers(&self) -> Headers {
        Headers::new()
    }

    fn body(&self) -> io::Empty {
        io::empty()
    }

    fn parse<Resp>(&self, resp: &mut Resp) -> Result<u16, String>
    where
        Resp: HttpResponse,
    {
        if resp.status() == 200 {
            Ok(resp.status())
        } else {
            Err("unexpected status".to_string())
        }
    }
}

/// An API whose parse must never run.
struct PanickingApi {}

impl Api for PanickingApi {
    type Reply = ();
    type Body = io::Empty;
    type Error = ();

    fn method(&self) -> Method {
        Method::Get
    }

    fn path(&self) -> String {
        "/never".to_string()
    }

    fn query(&self) -> Query {
        vec![]
    }

    fn headers(&self) -> Headers {
        Headers::new()
    }

    fn body(&self) -> io::Empty {
        io::empty()
    }

    fn parse<Resp>(&self, _resp: &mut Resp) -> Result<(), ()>
    where
        Resp: HttpResponse,
    {
        panic!("parse must not be invoked on transport failure");
    }
}

#[test]
fn dispatch_success_returns_parsed_reply() {
    let api = StatusApi {};
    let r = dispatch::<StatusApi, StubResponse, String>(&api, Ok(StubResponse::new(200)));
    assert_eq!(r, Ok(200));
}

#[test]
fn dispatch_wraps_parse_failure_as_api_error() {
    let api = StatusApi {};
    let r = dispatch::<StatusApi, StubResponse, String>(&api, Ok(StubResponse::new(404)));
    match r {
        Err(SendError::Api(e)) => assert_eq!(e, "unexpected status".to_string()),
        _ => panic!("expected the api-error variant"),
    }
}

#[test]
fn dispatch_wraps_transport_failure_as_client_error() {
    let api = StatusApi {};
    let r = dispatch::<StatusApi, StubResponse, String>(&api, Err("connection refused".to_string()));
    match r {
        Err(SendError::Client(e)) => assert_eq!(e, "connection refused".to_string()),
        _ => panic!("expected the client-error variant"),
    }
}

#[test]
fn dispatch_never_parses_on_transport_failure() {
    let api = PanickingApi {};
    // PanickingApi::parse panics if invoked; a transport failure must be
    // classified without consulting it.
    let r = dispatch::<PanickingApi, StubResponse, u8>(&api, Err(7u8));
    match r {
        Err(SendError::Client(e)) => assert_eq!(e, 7u8),
        _ => panic!("expected the client-error variant"),
    }
}
