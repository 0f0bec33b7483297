use vstd::prelude::*;
use crate::headers::Headers;

verus! {

/// The server response received by the client after sending an HTTP
/// request. Any concrete response type satisfies this contract; an
/// API description's `parse` consumes responses only through it.
pub trait HttpResponse {
    type Body;

    /// The status code this response carries. An adapter whose
    /// `status` is verified pins this down; by default it is left
    /// unspecified.
    open spec fn status_spec(&self) -> u16 {
        vstd::pervasive::arbitrary()
    }

    /// Response's status code. A well-formed adapter reports an
    /// integer between 100 and 599; the range is the adapter's
    /// responsibility and is not checked here.
    fn status(&self) -> (s: u16)
        ensures
            s == self.status_spec(),
    ;

    /// Reason phrase describing the status code, e.g. "OK" for 200 or
    /// "Not Found" for 404.
    fn reason(&self) -> &str;

    /// Response headers: metadata for the response, e.g. the
    /// `Content-Type` the body was encoded with. What an adapter
    /// captures here is implementation-defined; an adapter may
    /// legitimately report an empty mapping.
    fn headers(&self) -> Headers;

    /// Response's body: the data sent back by the server.
    fn body(&mut self) -> &mut Self::Body;

    /// Whether the status code is 1xx, informational.
    fn is_1xx(&self) -> (r: bool)
        ensures
            r == (self.status_spec() / 100 == 1),
    {
        self.status() / 100 == 1
    }

    /// Whether the status code is 2xx, success.
    fn is_2xx(&self) -> (r: bool)
        ensures
            r == (self.status_spec() / 100 == 2),
    {
        self.status() / 100 == 2
    }

    /// Whether the status code is 3xx, redirection.
    fn is_3xx(&self) -> (r: bool)
        ensures
            r == (self.status_spec() / 100 == 3),
    {
        self.status() / 100 == 3
    }

    /// Whether the status code is 4xx, a client error.
    fn is_4xx(&self) -> (r: bool)
        ensures
            r == (self.status_spec() / 100 == 4),
    {
        self.status() / 100 == 4
    }

    /// Whether the status code is 5xx, a server error.
    fn is_5xx(&self) -> (r: bool)
        ensures
            r == (self.status_spec() / 100 == 5),
    {
        self.status() / 100 == 5
    }
}

/// How many of the five status classes claim the status code `s`.
pub open spec fn status_class_count(s: u16) -> int {
    (if s / 100 == 1 { 1int } else { 0int }) + (if s / 100 == 2 { 1int } else { 0int })
        + (if s / 100 == 3 { 1int } else { 0int }) + (if s / 100 == 4 { 1int } else { 0int })
        + (if s / 100 == 5 { 1int } else { 0int })
}

/// The five status classes partition [100, 599]: a status code in that
/// range belongs to exactly one class, and one outside it — a contract
/// violation by the adapter — belongs to none, so every class helper
/// reports false for it.
pub proof fn lemma_status_classes_partition(s: u16)
    ensures
        100 <= s <= 599 ==> status_class_count(s) == 1,
        (s < 100 || s > 599) ==> status_class_count(s) == 0,
{
}

} // verus!
