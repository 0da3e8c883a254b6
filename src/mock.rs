//! A mock: a request matcher, a canned response and selection metadata.
use vstd::prelude::*;

use crate::method::Method;
use crate::request::Request;

verus! {

/// Priority given to a mock when none is stated.
pub const DEFAULT_PRIORITY: u8 = 5;

/// Conditions a request must meet; an absent condition accepts anything.
#[derive(Debug)]
pub struct When {
    pub method: Option<Method>,
    pub path: Option<String>,
    pub body: Option<Vec<u8>>,
}

/// A canned response.
#[derive(Debug)]
pub struct Then {
    pub status: u16,
    pub headers: Vec<(String, String)>,
    pub body: Vec<u8>,
}

/// A rule pairing a matcher with a response, a priority and a use limit.
#[derive(Debug)]
pub struct Mock {
    pub matcher: When,
    pub response: Then,
    /// Higher priorities are preferred.
    pub priority: u8,
    /// The number of times the mock may fire; `None` is unlimited.
    pub limit: Option<usize>,
    /// The number of times the mock has fired.
    pub hits: usize,
}

/// The request meets every condition of `w`.
pub open spec fn matches(w: When, r: Request) -> bool {
    &&& (w.method matches Some(m) ==> m == r.method)
    &&& (w.path matches Some(p) ==> p@ == r.path@)
    &&& (w.body matches Some(b) ==> b@ == r.body@)
}

/// The number of uses left; `None` is unlimited.
pub open spec fn remaining(m: Mock) -> Option<int> {
    match m.limit {
        Some(l) => Some(l - m.hits),
        None => None,
    }
}

/// A bounded mock never fires more often than its limit.
pub open spec fn mock_wf(m: Mock) -> bool {
    m.limit matches Some(l) ==> m.hits <= l
}

/// The mock may still fire.
pub open spec fn has_uses(m: Mock) -> bool {
    m.limit matches Some(l) ==> m.hits < l
}

/// The mock matches `r` and may still fire.
pub open spec fn eligible(m: Mock, r: Request) -> bool {
    matches(m.matcher, r) && has_uses(m)
}

/// The mock after firing once: its hit counter grows by one (saturating).
pub open spec fn fired(m: Mock) -> Mock {
    Mock { hits: if m.hits < usize::MAX { (m.hits + 1) as usize } else { m.hits }, ..m }
}

/// Two responses are equal field by field.
pub open spec fn same_response(a: Then, b: Then) -> bool {
    a.status == b.status && a.headers@ == b.headers@ && a.body@ == b.body@
}

/// Compares two byte strings.
fn bytes_eq(a: &Vec<u8>, b: &Vec<u8>) -> (r: bool)
    ensures
        r == (a@ == b@),
{
    if a.len() != b.len() {
        return false;
    }
    let mut i: usize = 0;
    while i < a.len()
        invariant
            a@.len() == b@.len(),
            0 <= i <= a.len(),
            forall|j: int| 0 <= j < i ==> #[trigger] a@[j] == b@[j],
        decreases a.len() - i,
    {
        if a[i] != b[i] {
            return false;
        }
        i = i + 1;
    }
    assert(a@ =~= b@);
    true
}

/// Copies a byte string.
fn copy_bytes(a: &Vec<u8>) -> (r: Vec<u8>)
    ensures
        r@ == a@,
{
    let mut r: Vec<u8> = Vec::new();
    let mut i: usize = 0;
    while i < a.len()
        invariant
            0 <= i <= a.len(),
            r@ == a@.subrange(0, i as int),
        decreases a.len() - i,
    {
        r.push(a[i]);
        i = i + 1;
        assert(r@ =~= a@.subrange(0, i as int));
    }
    assert(r@ =~= a@);
    r
}

/// Copies a list of header lines.
fn copy_headers(h: &Vec<(String, String)>) -> (r: Vec<(String, String)>)
    ensures
        r@ == h@,
{
    let mut r: Vec<(String, String)> = Vec::new();
    let mut i: usize = 0;
    while i < h.len()
        invariant
            0 <= i <= h.len(),
            r@ == h@.subrange(0, i as int),
        decreases h.len() - i,
    {
        let (k, v) = &h[i];
        r.push((k.clone(), v.clone()));
        i = i + 1;
        assert(r@ =~= h@.subrange(0, i as int));
    }
    assert(r@ =~= h@);
    r
}

impl When {
    /// A matcher that accepts every request.
    pub fn any() -> (r: When)
        ensures
            r.method is None && r.path is None && r.body is None,
    {
        When { method: None, path: None, body: None }
    }

    /// Adds a method condition.
    pub fn method(self, m: Method) -> (r: When)
        ensures
            r.method == Some(m),
            r.path == self.path,
            r.body == self.body,
    {
        When { method: Some(m), ..self }
    }

    /// Adds a path condition.
    pub fn path(self, p: &str) -> (r: When)
        ensures
            r.path matches Some(q) && q@ == p@,
            r.method == self.method,
            r.body == self.body,
    {
        When { path: Some(p.to_string()), ..self }
    }

    /// Adds a body condition.
    pub fn body(self, b: Vec<u8>) -> (r: When)
        ensures
            r.body matches Some(c) && c@ == b@,
            r.method == self.method,
            r.path == self.path,
    {
        When { body: Some(b), ..self }
    }

    /// Tests the request against every condition.
    pub fn is_match(&self, r: &Request) -> (b: bool)
        ensures
            b == matches(*self, *r),
    {
        if let Some(m) = &self.method {
            if *m != r.method {
                return false;
            }
        }
        if let Some(p) = &self.path {
            if *p != r.path {
                return false;
            }
        }
        if let Some(b) = &self.body {
            if !bytes_eq(b, &r.body) {
                return false;
            }
        }
        true
    }
}

impl Then {
    /// A response with the given status, no headers and an empty body.
    pub fn status(status: u16) -> (r: Then)
        ensures
            r.status == status,
            r.headers@.len() == 0,
            r.body@.len() == 0,
    {
        Then { status, headers: Vec::new(), body: Vec::new() }
    }

    /// Adds a header line.
    pub fn header(self, name: &str, value: &str) -> (r: Then)
        ensures
            r.status == self.status,
            r.body@ == self.body@,
            r.headers@.len() == self.headers@.len() + 1,
            r.headers@.drop_last() == self.headers@,
            r.headers@.last().0@ == name@,
            r.headers@.last().1@ == value@,
    {
        let mut headers = self.headers;
        headers.push((name.to_string(), value.to_string()));
        Then { headers, ..self }
    }

    /// Replaces the body.
    pub fn body(self, body: Vec<u8>) -> (r: Then)
        ensures
            r.status == self.status,
            r.headers@ == self.headers@,
            r.body@ == body@,
    {
        Then { body, ..self }
    }

    /// A field-by-field copy.
    pub fn copy(&self) -> (r: Then)
        ensures
            same_response(r, *self),
    {
        Then { status: self.status, headers: copy_headers(&self.headers), body: copy_bytes(&self.body) }
    }
}

/// Two matchers state the same conditions.
pub open spec fn same_matcher(a: When, b: When) -> bool {
    &&& a.method == b.method
    &&& a.path is Some == b.path is Some
    &&& (a.path matches Some(p) ==> p@ == b.path->0@)
    &&& a.body is Some == b.body is Some
    &&& (a.body matches Some(x) ==> x@ == b.body->0@)
}

/// Two mocks agree in every field.
pub open spec fn same_mock(a: Mock, b: Mock) -> bool {
    &&& same_matcher(a.matcher, b.matcher)
    &&& same_response(a.response, b.response)
    &&& a.priority == b.priority
    &&& a.limit == b.limit
    &&& a.hits == b.hits
}

impl When {
    /// A field-by-field copy.
    pub fn copy(&self) -> (r: When)
        ensures
            same_matcher(r, *self),
    {
        let path = match &self.path {
            Some(p) => Some(p.clone()),
            None => None,
        };
        let body = match &self.body {
            Some(b) => Some(copy_bytes(b)),
            None => None,
        };
        When { method: self.method, path, body }
    }
}

impl Mock {
    /// A field-by-field copy.
    pub fn copy(&self) -> (r: Mock)
        ensures
            same_mock(r, *self),
    {
        Mock {
            matcher: self.matcher.copy(),
            response: self.response.copy(),
            priority: self.priority,
            limit: self.limit,
            hits: self.hits,
        }
    }

    /// Builds a mock with the default priority, no use limit and no hits.
    pub fn new(matcher: When, response: Then) -> (r: Mock)
        ensures
            r.matcher == matcher,
            r.response == response,
            r.priority == DEFAULT_PRIORITY,
            r.limit is None,
            r.hits == 0,
    {
        Mock { matcher, response, priority: DEFAULT_PRIORITY, limit: None, hits: 0 }
    }

    /// Sets the priority.
    pub fn with_priority(self, priority: u8) -> (r: Mock)
        ensures
            r == (Mock { priority, ..self }),
    {
        Mock { priority, ..self }
    }

    /// Sets the number of times the mock may fire.
    pub fn with_limit(self, limit: usize) -> (r: Mock)
        ensures
            r == (Mock { limit: Some(limit), ..self }),
    {
        Mock { limit: Some(limit), ..self }
    }

    /// The number of uses left; `None` is unlimited.
    pub fn remaining(&self) -> (r: Option<usize>)
        requires
            mock_wf(*self),
        ensures
            r matches Some(n) ==> remaining(*self) == Some(n as int),
            r is None ==> remaining(*self) is None,
    {
        match self.limit {
            Some(l) => Some(l - self.hits),
            None => None,
        }
    }

    /// The mock matches `r` and may still fire.
    pub fn is_eligible(&self, r: &Request) -> (b: bool)
        ensures
            b == eligible(*self, *r),
    {
        let uses = match self.limit {
            Some(l) => self.hits < l,
            None => true,
        };
        uses && self.matcher.is_match(r)
    }

    /// Records one firing.
    pub fn fire(&mut self)
        ensures
            *final(self) == fired(*old(self)),
    {
        if self.hits < usize::MAX {
            self.hits = self.hits + 1;
        }
    }
}

} // verus!
