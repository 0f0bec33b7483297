use vstd::prelude::*;
use crate::api::Api;
use crate::headers::Query;
use crate::response::HttpResponse;

verus! {

#[verifier::external_type_specification]
#[verifier::external_body]
pub struct ExUrl(hyper::Url);

#[verifier::external_type_specification]
#[verifier::external_body]
pub struct ExHyperError(hyper::Error);

/// The query a URL holds: its ordered name/value pairs.
pub uninterp spec fn url_query_pairs(u: hyper::Url) -> Seq<(Seq<char>, Seq<char>)>;

/// Whether parsing `base` as a URL and resolving `path` against it
/// succeeds.
pub uninterp spec fn url_resolution_accepts(base: Seq<char>, path: Seq<char>) -> bool;

/// The query pairs the URL resolved from `base` and `path` holds
/// before anything is appended to it.
pub uninterp spec fn resolved_query_pairs(base: Seq<char>, path: Seq<char>) -> Seq<
    (Seq<char>, Seq<char>),
>;

/// Relies on url's Url::parse and Url::join: whether they succeed,
/// and the URL they produce, depend on the two strings alone; either
/// failure is the transport's URL error.
#[verifier::external_body]
fn resolve_url(base: &str, path: &str) -> (r: Result<hyper::Url, hyper::Error>)
    ensures
        r is Ok <==> url_resolution_accepts(base@, path@),
        r matches Ok(u) ==> url_query_pairs(u) == resolved_query_pairs(base@, path@),
{
    match hyper::Url::parse(base) {
        Ok(u) => match u.join(path) {
            Ok(joined) => Ok(joined),
            Err(e) => Err(hyper::Error::Uri(e)),
        },
        Err(e) => Err(hyper::Error::Uri(e)),
    }
}

/// Relies on url's query_pairs_mut().append_pair: it appends the one
/// pair to the URL's query in standard percent-encoding, keeping every
/// pair the URL already holds and their order.
#[verifier::external_body]
fn append_query_pair(u: &mut hyper::Url, name: &str, value: &str)
    ensures
        url_query_pairs(*final(u)) == url_query_pairs(*old(u)).push((name@, value@)),
{
    u.query_pairs_mut().append_pair(name, value);
}

/// The name/value pairs of a query, as sequences of characters.
pub open spec fn query_pairs_view(q: Seq<(String, String)>) -> Seq<(Seq<char>, Seq<char>)> {
    q.map_values(|p: (String, String)| (p.0@, p.1@))
}

/// Build the concrete request URL of a send from an [`Api`]
/// description's parts: parse `base`, resolve the description's
/// `path` against it — a failure of either is the transport's URL
/// error — and append each query pair to the resolved URL's query,
/// preserving their order and keeping duplicates.
pub fn build_request_url(base: &str, path: &str, query: &Query) -> (r: Result<
    hyper::Url,
    hyper::Error,
>)
    ensures
        r is Ok <==> url_resolution_accepts(base@, path@),
        r matches Ok(u) ==> url_query_pairs(u) == resolved_query_pairs(base@, path@)
            + query_pairs_view(query@),
{
    let mut u = match resolve_url(base, path) {
        Ok(u) => u,
        Err(e) => {
            return Err(e);
        },
    };
    proof {
        assert(query@.take(0) =~= Seq::<(String, String)>::empty());
        assert(query_pairs_view(query@.take(0)) =~= Seq::<(Seq<char>, Seq<char>)>::empty());
        assert(url_query_pairs(u) =~= resolved_query_pairs(base@, path@) + query_pairs_view(
            query@.take(0),
        ));
    }
    let n = query.len();
    let mut i: usize = 0;
    while i < n
        invariant
            n == query@.len(),
            i <= n,
            url_query_pairs(u) == resolved_query_pairs(base@, path@) + query_pairs_view(
                query@.take(i as int),
            ),
        decreases n - i,
    {
        append_query_pair(&mut u, query[i].0.as_str(), query[i].1.as_str());
        proof {
            let pair = (query@[i as int].0@, query@[i as int].1@);
            assert(query_pairs_view(query@.take(i as int + 1)) =~= query_pairs_view(
                query@.take(i as int),
            ).push(pair));
            assert((resolved_query_pairs(base@, path@) + query_pairs_view(query@.take(i as int)))
                .push(pair) =~= resolved_query_pairs(base@, path@) + query_pairs_view(
                query@.take(i as int + 1),
            ));
        }
        i = i + 1;
    }
    proof {
        assert(query@.take(n as int) =~= query@);
    }
    Ok(u)
}

/// The failure of one send, classified as exactly one of two kinds:
/// the transport failed (`Client`, carrying the client's opaque error
/// type), or the transport succeeded and the API description's own
/// parsing failed (`Api`, carrying the description's error type).
#[derive(Debug, PartialEq)]
pub enum SendError<S, A> {
    Client(S),
    Api(A),
}

/// Something that can execute an [`Api`] description against a base
/// URL: it builds the concrete request from the description's method,
/// path, query, headers and body, runs it on its transport, and
/// completes the exchange the way [`dispatch`] does — so the caller
/// receives the parsed reply or a classified [`SendError`].
pub trait Client<A: Api, E> {
    /// Send an HTTP request for the given API description. The
    /// description's path is resolved against `url`, the base URL for
    /// the API.
    fn send(&mut self, url: &str, req: A) -> Result<A::Reply, SendError<E, A::Error>>;
}

/// Complete a send from the transport's outcome. A transport failure
/// is returned at once as `SendError::Client`, and the description's
/// `parse` is not consulted. On transport success the response is
/// handed to `req.parse`, whose failure is returned as
/// `SendError::Api` and whose success is the overall reply. Every
/// failure is thus classified as exactly one `SendError` variant.
pub fn dispatch<A: Api, R: HttpResponse, E>(req: &A, outcome: Result<R, E>) -> (r: Result<
    A::Reply,
    SendError<E, A::Error>,
>)
    requires
        req.wf(),
    ensures
        outcome matches Err(e) ==> r == Err::<A::Reply, SendError<E, A::Error>>(
            SendError::Client(e),
        ),
        outcome matches Ok(resp) ==> match r {
            Ok(v) => req.parse_ok(resp.status_spec(), Ok::<A::Reply, A::Error>(v)),
            Err(SendError::Api(e)) => req.parse_ok(resp.status_spec(), Err::<A::Reply, A::Error>(e)),
            Err(SendError::Client(_)) => false,
        },
{
    match outcome {
        Err(e) => Err(SendError::Client(e)),
        Ok(mut resp) => match req.parse(&mut resp) {
            Ok(v) => Ok(v),
            Err(e) => Err(SendError::Api(e)),
        },
    }
}

} // verus!
