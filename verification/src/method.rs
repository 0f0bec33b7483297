use vstd::prelude::*;

verus! {

/// An HTTP verb: the standard ones, plus a `Custom` case for
/// non-standard methods, carrying the verbatim verb string.
#[derive(Debug)]
pub enum Method {
    Get,
    Head,
    Post,
    Put,
    Delete,
    Patch,
    Options,
    Trace,
    Connect,
    Custom(String),
}

impl Method {
    /// The verb string this method stands for: the standard name in
    /// upper case, or the carried string for `Custom`.
    pub open spec fn verb(self) -> Seq<char> {
        match self {
            Method::Get => "GET"@,
            Method::Head => "HEAD"@,
            Method::Post => "POST"@,
            Method::Put => "PUT"@,
            Method::Delete => "DELETE"@,
            Method::Patch => "PATCH"@,
            Method::Options => "OPTIONS"@,
            Method::Trace => "TRACE"@,
            Method::Connect => "CONNECT"@,
            Method::Custom(s) => s@,
        }
    }

    /// Returns the string representing this HTTP method.
    pub fn to_string(&self) -> (s: String)
        ensures
            s@ == self.verb(),
    {
        match self {
            Method::Get => "GET".to_owned(),
            Method::Head => "HEAD".to_owned(),
            Method::Post => "POST".to_owned(),
            Method::Put => "PUT".to_owned(),
            Method::Delete => "DELETE".to_owned(),
            Method::Patch => "PATCH".to_owned(),
            Method::Options => "OPTIONS".to_owned(),
            Method::Trace => "TRACE".to_owned(),
            Method::Connect => "CONNECT".to_owned(),
            Method::Custom(s) => s.clone(),
        }
    }
}

} // verus!
