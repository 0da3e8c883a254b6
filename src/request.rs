//! Mock request.
use vstd::prelude::*;
use vstd::string::*;

use crate::method::{method_ignore_case, Method, ValidationError};

verus! {

/// What `url::Url::parse` makes of a string: `None` when it is refused, else
/// the serialization, the path and the query of the parsed URL.
pub uninterp spec fn url_parse(s: Seq<char>) -> Option<(Seq<char>, Seq<char>, Option<Seq<char>>)>;

/// What `http::Uri` makes of a request target: `None` when it is refused,
/// else whether the target has an authority part.
pub uninterp spec fn uri_authority(s: Seq<char>) -> Option<bool>;

/// The name/value pairs that `url::form_urlencoded::parse` decodes from a query.
pub uninterp spec fn query_pairs_of(q: Seq<char>) -> Seq<(Seq<char>, Seq<char>)>;

/// The view of a list of string pairs.
pub open spec fn pairs_view(v: Seq<(String, String)>) -> Seq<(Seq<char>, Seq<char>)> {
    v.map_values(|p: (String, String)| (p.0@, p.1@))
}

/// Relies on `url::form_urlencoded::parse`: percent-decoded pairs, none for an
/// empty input.
#[verifier::external_body]
fn decode_query(q: &str) -> (r: Vec<(String, String)>)
    ensures
        pairs_view(r@) == query_pairs_of(q@),
        q@.len() == 0 ==> r@.len() == 0,
{
    let mut r = Vec::new();
    for (k, v) in url::form_urlencoded::parse(q.as_bytes()) {
        r.push((k.into_owned(), v.into_owned()));
    }
    r
}

/// The view of an optional string.
pub open spec fn opt_view(o: Option<String>) -> Option<Seq<char>> {
    match o {
        Some(x) => Some(x@),
        None => None,
    }
}

/// Relies on `url::Url::parse`, and on `Url::as_str`, `Url::path` and
/// `Url::query` of its result.
#[verifier::external_body]
pub(crate) fn parse_url(s: &str) -> (r: Option<(String, String, Option<String>)>)
    ensures
        match url_parse(s@) {
            Some(t) => r matches Some(p) && p.0@ == t.0 && p.1@ == t.1 && opt_view(p.2) == t.2,
            None => r is None,
        },
{
    match url::Url::parse(s) {
        Ok(u) => {
            let query = match u.query() {
                Some(q) => Some(q.to_string()),
                None => None,
            };
            Some((u.as_str().to_string(), u.path().to_string(), query))
        },
        Err(_) => None,
    }
}

/// Relies on `http::Uri`'s `FromStr` and on `Uri::authority` of its result.
#[verifier::external_body]
fn target_authority(s: &str) -> (r: Option<bool>)
    ensures
        r == uri_authority(s@),
{
    match s.parse::<http::Uri>() {
        Ok(u) => Some(u.authority().is_some()),
        Err(_) => None,
    }
}

/// The absolute URL a request target stands for: the target itself when it
/// has an authority, else the target resolved against `http://localhost`.
pub open spec fn absolute_target(t: Seq<char>) -> Option<Seq<char>> {
    match uri_authority(t) {
        Some(true) => Some(t),
        Some(false) => Some("http://localhost"@ + t),
        None => None,
    }
}

/// The request built from a method, a parsed URL, headers and a body.
pub open spec fn built(r: Request, m: Method, u: (Seq<char>, Seq<char>, Option<Seq<char>>), headers: Seq<(String, Vec<u8>)>, body: Seq<u8>) -> bool {
    &&& r.method == m
    &&& r.url@ == u.0
    &&& r.path@ == u.1
    &&& opt_view(r.query) == u.2
    &&& r.headers@ == headers
    &&& r.body@ == body
}

/// Represents a HTTP request, held as the plain values that matching reads.
#[derive(Debug)]
pub struct Request {
    pub method: Method,
    /// The absolute URL, serialized.
    pub url: String,
    /// The URL's path.
    pub path: String,
    /// The URL's query string, without the leading `?`.
    pub query: Option<String>,
    /// Header lines, in order: names, and values as raw bytes.
    pub headers: Vec<(String, Vec<u8>)>,
    pub body: Vec<u8>,
}

impl Request {
    /// A request for an absolute URL, with no headers and an empty body.
    pub fn new(method: Method, url: &str) -> (r: Result<Request, ValidationError>)
        ensures
            match url_parse(url@) {
                Some(u) => r matches Ok(q) && built(q, method, u, Seq::empty(), Seq::empty()),
                None => r matches Err(ValidationError::InvalidTarget(t)) && t@ == url@,
            },
    {
        match parse_url(url) {
            Some((u, path, query)) => Ok(
                Request { method, url: u, path, query, headers: Vec::new(), body: Vec::new() },
            ),
            None => Err(ValidationError::InvalidTarget(url.to_string())),
        }
    }

    /// Builds a request from the parts of a protocol message. The method is
    /// read ignoring case; a target without an authority is resolved against
    /// `http://localhost`. Headers and body are kept verbatim.
    pub fn from_parts(method: &str, target: &str, headers: Vec<(String, Vec<u8>)>, body: Vec<u8>) -> (r: Result<Request, ValidationError>)
        ensures
            match method_ignore_case(method@) {
                None => r matches Err(ValidationError::InvalidMethod(t)) && t@ == method@,
                Some(m) => match absolute_target(target@) {
                    None => r matches Err(ValidationError::InvalidTarget(t)) && t@ == target@,
                    Some(a) => match url_parse(a) {
                        None => r matches Err(ValidationError::InvalidTarget(t)) && t@ == target@,
                        Some(u) => r matches Ok(q) && built(q, m, u, headers@, body@),
                    },
                },
            },
    {
        let m = match Method::parse(method) {
            Ok(m) => m,
            Err(e) => return Err(e),
        };
        let absolute = match target_authority(target) {
            Some(true) => target.to_string(),
            Some(false) => "http://localhost".to_string().concat(target),
            None => return Err(ValidationError::InvalidTarget(target.to_string())),
        };
        match parse_url(absolute.as_str()) {
            Some((u, path, query)) => Ok(Request { method: m, url: u, path, query, headers, body }),
            None => Err(ValidationError::InvalidTarget(target.to_string())),
        }
    }

    pub fn method(&self) -> (r: &Method)
        ensures
            *r == self.method,
    {
        &self.method
    }

    pub fn url(&self) -> (r: &str)
        ensures
            r@ == self.url@,
    {
        self.url.as_str()
    }

    pub fn path(&self) -> (r: &str)
        ensures
            r@ == self.path@,
    {
        self.path.as_str()
    }

    pub fn query(&self) -> (r: Option<&str>)
        ensures
            r.is_some() == self.query.is_some(),
            r.is_some() ==> r.unwrap()@ == self.query.unwrap()@,
    {
        match &self.query {
            Some(q) => Some(q.as_str()),
            None => None,
        }
    }

    /// The query's name/value pairs, percent-decoded; none without a query.
    pub fn query_pairs(&self) -> (r: Vec<(String, String)>)
        ensures
            match self.query {
                Some(q) => pairs_view(r@) == query_pairs_of(q@),
                None => r@.len() == 0,
            },
    {
        match &self.query {
            Some(q) => decode_query(q.as_str()),
            None => Vec::new(),
        }
    }

    pub fn headers(&self) -> (r: &Vec<(String, Vec<u8>)>)
        ensures
            r@ == self.headers@,
    {
        &self.headers
    }

    pub fn body(&self) -> (r: &Vec<u8>)
        ensures
            r@ == self.body@,
    {
        &self.body
    }

    /// Replaces the headers.
    pub fn with_headers(self, headers: Vec<(String, Vec<u8>)>) -> (r: Request)
        ensures
            r.headers@ == headers@,
            r.method == self.method,
            r.url@ == self.url@,
            r.path@ == self.path@,
            r.query == self.query,
            r.body@ == self.body@,
    {
        Request { headers, ..self }
    }

    /// Replaces the body.
    pub fn with_body(self, body: Vec<u8>) -> (r: Request)
        ensures
            r.body@ == body@,
            r.method == self.method,
            r.url@ == self.url@,
            r.path@ == self.path@,
            r.query == self.query,
            r.headers@ == self.headers@,
    {
        Request { body, ..self }
    }
}

} // verus!
