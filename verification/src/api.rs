use vstd::prelude::*;
use crate::headers::Headers;
use crate::headers::Query;
use crate::method::Method;
use crate::response::HttpResponse;

verus! {

/// The identity rewrite: hands its argument back unchanged.
pub fn identity<T>(x: T) -> (r: T)
    ensures
        r == x,
{
    x
}

/// `Api` describes one HTTP API call: the request's method, path,
/// query, headers and body, and how to parse the response into the
/// call's typed reply or error — all independent of the client that
/// eventually sends it.
///
/// The accessors are read-only queries. Because an accessor's result
/// may pass through rewrite functions (see [`Transform`]), each is
/// specified by a predicate over its possible results rather than by
/// one fixed value; a plain description pins the result down by making
/// its predicate hold of a single value.
pub trait Api {
    type Reply;

    type Body;

    type Error;

    /// Well-formedness of this description. A plain description is
    /// unconditionally well formed; a wrapper is well formed when what
    /// it wraps is, and its rewrite functions accept every input.
    open spec fn wf(&self) -> bool {
        true
    }

    /// The HTTP method this description uses. An implementation whose
    /// accessors are verified pins this down; by default it is left
    /// unspecified.
    open spec fn method_spec(&self) -> Method {
        vstd::pervasive::arbitrary()
    }

    /// The URL path of this description. Left unspecified by default,
    /// like `method_spec`.
    open spec fn path_spec(&self) -> Seq<char> {
        vstd::pervasive::arbitrary()
    }

    /// Which queries `query` may return; by default any at all.
    open spec fn query_ok(&self, q: Query) -> bool {
        true
    }

    /// Which header mappings `headers` may return; by default any at
    /// all.
    open spec fn headers_ok(&self, h: Headers) -> bool {
        true
    }

    /// Which bodies `body` may return; by default any at all.
    open spec fn body_ok(&self, b: Self::Body) -> bool {
        true
    }

    /// Which results `parse` may produce from a response carrying the
    /// given status code; by default any at all.
    open spec fn parse_ok(&self, status: u16, r: Result<Self::Reply, Self::Error>) -> bool {
        true
    }

    /// Return the HTTP method used by this API.
    fn method(&self) -> (m: Method)
        requires
            self.wf(),
        ensures
            m == self.method_spec(),
    ;

    /// Return the URL path for this API request.
    fn path(&self) -> (p: String)
        requires
            self.wf(),
        ensures
            p@ == self.path_spec(),
    ;

    /// Return the URL query for this API request.
    fn query(&self) -> (q: Query)
        requires
            self.wf(),
        ensures
            self.query_ok(q),
    ;

    /// Return the headers for this HTTP request.
    fn headers(&self) -> (h: Headers)
        requires
            self.wf(),
        ensures
            self.headers_ok(h),
    ;

    /// Return the body of this HTTP request; a request that expects no
    /// body returns its type's empty stream.
    fn body(&self) -> (b: Self::Body)
        requires
            self.wf(),
        ensures
            self.body_ok(b),
    ;

    /// Parse the HTTP response received from the actual client into
    /// the type `Reply`, or report this description's own `Error`.
    fn parse<Resp: HttpResponse>(&self, resp: &mut Resp) -> (r: Result<Self::Reply, Self::Error>)
        requires
            self.wf(),
        ensures
            self.parse_ok(old(resp).status_spec(), r),
    ;

    /// Wrap this description with a header rewrite, a query rewrite
    /// and a body rewrite. The wrapper borrows this description and
    /// satisfies `Api` itself, so wraps compose.
    fn transform<'a, H, Q, B>(&'a self, h: H, q: Q, b: B) -> (t: Transform<'a, Self, H, Q, B>) where
        Self: Sized,

        ensures
            t.inner() == self,
            t.header_fn() == h,
            t.query_fn() == q,
            t.body_fn() == b,
    {
        Transform { api: self, h, q, b }
    }
}

/// A decorator over an [`Api`] description: it borrows the wrapped
/// description and applies three independent rewrite functions to its
/// headers, query and body, while method, path and response parsing
/// pass through unchanged. The rewrites are reapplied on every
/// accessor call, never cached.
pub struct Transform<'a, A, H, Q, B> {
    api: &'a A,
    h: H,
    q: Q,
    b: B,
}

impl<'a, A, H, Q, B> Transform<'a, A, H, Q, B> {
    /// The wrapped description.
    pub closed spec fn inner(self) -> &'a A {
        self.api
    }

    /// The header rewrite function.
    pub closed spec fn header_fn(self) -> H {
        self.h
    }

    /// The query rewrite function.
    pub closed spec fn query_fn(self) -> Q {
        self.q
    }

    /// The body rewrite function.
    pub closed spec fn body_fn(self) -> B {
        self.b
    }
}

impl<'a, A, H, Q, B, NewBody> Api for Transform<'a, A, H, Q, B> where
    A: Api,
    H: Fn(Headers) -> Headers,
    Q: Fn(Query) -> Query,
    B: Fn(A::Body) -> NewBody,
 {
    type Reply = A::Reply;

    type Body = NewBody;

    type Error = A::Error;

    open spec fn wf(&self) -> bool {
        &&& self.inner().wf()
        &&& forall|x: Headers| call_requires(self.header_fn(), (x,))
        &&& forall|x: Query| call_requires(self.query_fn(), (x,))
        &&& forall|x: A::Body| call_requires(self.body_fn(), (x,))
    }

    open spec fn method_spec(&self) -> Method {
        self.inner().method_spec()
    }

    open spec fn path_spec(&self) -> Seq<char> {
        self.inner().path_spec()
    }

    open spec fn query_ok(&self, q: Query) -> bool {
        exists|iq: Query| self.inner().query_ok(iq) && call_ensures(self.query_fn(), (iq,), q)
    }

    open spec fn headers_ok(&self, h: Headers) -> bool {
        exists|ih: Headers| self.inner().headers_ok(ih) && call_ensures(self.header_fn(), (ih,), h)
    }

    open spec fn body_ok(&self, b: NewBody) -> bool {
        exists|ib: A::Body| self.inner().body_ok(ib) && call_ensures(self.body_fn(), (ib,), b)
    }

    open spec fn parse_ok(&self, status: u16, r: Result<A::Reply, A::Error>) -> bool {
        self.inner().parse_ok(status, r)
    }

    fn method(&self) -> Method {
        self.api.method()
    }

    fn path(&self) -> String {
        self.api.path()
    }

    fn query(&self) -> (q: Query) {
        let iq = self.api.query();
        proof {
            assert(call_requires(self.query_fn(), (iq,)));
        }
        let r = (self.q)(iq);
        proof {
            assert(self.inner().query_ok(iq) && call_ensures(self.query_fn(), (iq,), r));
        }
        r
    }

    fn headers(&self) -> (h: Headers) {
        let ih = self.api.headers();
        proof {
            assert(call_requires(self.header_fn(), (ih,)));
        }
        let r = (self.h)(ih);
        proof {
            assert(self.inner().headers_ok(ih) && call_ensures(self.header_fn(), (ih,), r));
        }
        r
    }

    fn body(&self) -> (b: NewBody) {
        let ib = self.api.body();
        proof {
            assert(call_requires(self.body_fn(), (ib,)));
        }
        let r = (self.b)(ib);
        proof {
            assert(self.inner().body_ok(ib) && call_ensures(self.body_fn(), (ib,), r));
        }
        r
    }

    fn parse<Resp: HttpResponse>(&self, resp: &mut Resp) -> (r: Result<A::Reply, A::Error>) {
        self.api.parse(resp)
    }
}

/// Wrapping with no-op rewrites is observationally transparent: when
/// every run of the header rewrite and of the query rewrite hands its
/// input back unchanged, whatever headers and query the wrapper can
/// report are exactly what the wrapped description can report.
pub proof fn lemma_identity_transform<'a, A, H, Q, B, NewBody>(
    t: Transform<'a, A, H, Q, B>,
    h: Headers,
    q: Query,
) where
    A: Api,
    H: Fn(Headers) -> Headers,
    Q: Fn(Query) -> Query,
    B: Fn(A::Body) -> NewBody,

    requires
        forall|x: Headers, y: Headers| call_ensures(t.header_fn(), (x,), y) ==> y == x,
        forall|x: Query, y: Query| call_ensures(t.query_fn(), (x,), y) ==> y == x,
    ensures
        t.headers_ok(h) ==> t.inner().headers_ok(h),
        t.query_ok(q) ==> t.inner().query_ok(q),
{
    if t.headers_ok(h) {
        let ih = choose|ih: Headers| t.inner().headers_ok(ih) && call_ensures(t.header_fn(), (ih,), h);
        assert(h == ih);
    }
    if t.query_ok(q) {
        let iq = choose|iq: Query| t.inner().query_ok(iq) && call_ensures(t.query_fn(), (iq,), q);
        assert(q == iq);
    }
}

/// A wrapper delegates method, path and parsing to what it wraps,
/// untouched by its rewrite functions: the rewrites affect only the
/// outgoing request's headers, query and body, never the response's
/// interpretation.
pub proof fn lemma_transform_delegates<'a, A, H, Q, B, NewBody>(
    t: Transform<'a, A, H, Q, B>,
    status: u16,
    r: Result<A::Reply, A::Error>,
) where
    A: Api,
    H: Fn(Headers) -> Headers,
    Q: Fn(Query) -> Query,
    B: Fn(A::Body) -> NewBody,

    ensures
        t.method_spec() == t.inner().method_spec(),
        t.path_spec() == t.inner().path_spec(),
        t.parse_ok(status, r) == t.inner().parse_ok(status, r),
{
}

/// Independently parameterized wrappers over one description do not
/// interfere: which headers a wrapper can report depends only on the
/// wrapped description and the wrapper's own header rewrite — never on
/// its other rewrites or on any other wrapper — and likewise for the
/// query.
pub proof fn lemma_transforms_independent<'a, 'b, A, H, Q, B, Q2, B2, NewBody, NewBody2>(
    t1: Transform<'a, A, H, Q, B>,
    t2: Transform<'b, A, H, Q2, B2>,
    h: Headers,
) where
    A: Api,
    H: Fn(Headers) -> Headers,
    Q: Fn(Query) -> Query,
    B: Fn(A::Body) -> NewBody,
    Q2: Fn(Query) -> Query,
    B2: Fn(A::Body) -> NewBody2,

    requires
        t1.inner() == t2.inner(),
        t1.header_fn() == t2.header_fn(),
    ensures
        t1.headers_ok(h) == t2.headers_ok(h),
{
}

/// The query-side counterpart of [`lemma_transforms_independent`]:
/// which queries a wrapper can report depends only on the wrapped
/// description and the wrapper's own query rewrite.
pub proof fn lemma_transforms_independent_query<'a, 'b, A, H, Q, B, H2, B2, NewBody, NewBody2>(
    t1: Transform<'a, A, H, Q, B>,
    t2: Transform<'b, A, H2, Q, B2>,
    q: Query,
) where
    A: Api,
    H: Fn(Headers) -> Headers,
    Q: Fn(Query) -> Query,
    B: Fn(A::Body) -> NewBody,
    H2: Fn(Headers) -> Headers,
    B2: Fn(A::Body) -> NewBody2,

    requires
        t1.inner() == t2.inner(),
        t1.query_fn() == t2.query_fn(),
    ensures
        t1.query_ok(q) == t2.query_ok(q),
{
}

/// Re-wrapping a wrapper applies the rewrites in wrap order: the outer
/// header rewrite receives the already-rewritten result of the inner
/// one, and likewise for the query.
pub proof fn lemma_rewrap_applies_in_order<'a, 'b, A, H1, Q1, B1, H2, Q2, B2, NB1, NB2>(
    t: Transform<'a, Transform<'b, A, H1, Q1, B1>, H2, Q2, B2>,
    h: Headers,
    q: Query,
) where
    A: Api,
    H1: Fn(Headers) -> Headers,
    Q1: Fn(Query) -> Query,
    B1: Fn(A::Body) -> NB1,
    H2: Fn(Headers) -> Headers,
    Q2: Fn(Query) -> Query,
    B2: Fn(NB1) -> NB2,

    ensures
        t.headers_ok(h) <==> exists|h0: Headers, h1: Headers|
            t.inner().inner().headers_ok(h0) && call_ensures(t.inner().header_fn(), (h0,), h1)
                && call_ensures(t.header_fn(), (h1,), h),
        t.query_ok(q) <==> exists|q0: Query, q1: Query|
            t.inner().inner().query_ok(q0) && call_ensures(t.inner().query_fn(), (q0,), q1)
                && call_ensures(t.query_fn(), (q1,), q),
{
    if t.headers_ok(h) {
        let h1 = choose|h1: Headers| t.inner().headers_ok(h1) && call_ensures(t.header_fn(), (h1,), h);
        let h0 = choose|h0: Headers|
            t.inner().inner().headers_ok(h0) && call_ensures(t.inner().header_fn(), (h0,), h1);
        assert(t.inner().inner().headers_ok(h0) && call_ensures(t.inner().header_fn(), (h0,), h1)
            && call_ensures(t.header_fn(), (h1,), h));
    }
    if exists|h0: Headers, h1: Headers|
        t.inner().inner().headers_ok(h0) && call_ensures(t.inner().header_fn(), (h0,), h1)
            && call_ensures(t.header_fn(), (h1,), h) {
        let (h0, h1) = choose|h0: Headers, h1: Headers|
            t.inner().inner().headers_ok(h0) && call_ensures(t.inner().header_fn(), (h0,), h1)
                && call_ensures(t.header_fn(), (h1,), h);
        assert(t.inner().headers_ok(h1));
    }
    if t.query_ok(q) {
        let q1 = choose|q1: Query| t.inner().query_ok(q1) && call_ensures(t.query_fn(), (q1,), q);
        let q0 = choose|q0: Query|
            t.inner().inner().query_ok(q0) && call_ensures(t.inner().query_fn(), (q0,), q1);
        assert(t.inner().inner().query_ok(q0) && call_ensures(t.inner().query_fn(), (q0,), q1)
            && call_ensures(t.query_fn(), (q1,), q));
    }
    if exists|q0: Query, q1: Query|
        t.inner().inner().query_ok(q0) && call_ensures(t.inner().query_fn(), (q0,), q1)
            && call_ensures(t.query_fn(), (q1,), q) {
        let (q0, q1) = choose|q0: Query, q1: Query|
            t.inner().inner().query_ok(q0) && call_ensures(t.inner().query_fn(), (q0,), q1)
                && call_ensures(t.query_fn(), (q1,), q);
        assert(t.inner().query_ok(q1));
    }
}


/// What well-formedness of a wrapper amounts to: the wrapped
/// description is well formed and each rewrite accepts every input.
pub proof fn lemma_transform_wf<'a, A, H, Q, B, NewBody>(t: Transform<'a, A, H, Q, B>) where
    A: Api,
    H: Fn(Headers) -> Headers,
    Q: Fn(Query) -> Query,
    B: Fn(A::Body) -> NewBody,

    ensures
        t.wf() == (t.inner().wf() && (forall|x: Headers| call_requires(t.header_fn(), (x,)))
            && (forall|x: Query| call_requires(t.query_fn(), (x,)))
            && (forall|x: A::Body| call_requires(t.body_fn(), (x,)))),
{
}

/// What a wrapper may report for headers: the header rewrite applied
/// to something the wrapped description may report, and likewise for
/// the query.
pub proof fn lemma_transform_reports<'a, A, H, Q, B, NewBody>(
    t: Transform<'a, A, H, Q, B>,
    h: Headers,
    q: Query,
) where
    A: Api,
    H: Fn(Headers) -> Headers,
    Q: Fn(Query) -> Query,
    B: Fn(A::Body) -> NewBody,

    ensures
        t.headers_ok(h) == exists|ih: Headers|
            t.inner().headers_ok(ih) && call_ensures(t.header_fn(), (ih,), h),
        t.query_ok(q) == exists|iq: Query|
            t.inner().query_ok(iq) && call_ensures(t.query_fn(), (iq,), q),
{
}

} // verus!
