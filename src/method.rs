//! HTTP methods and their tokens.
use vstd::prelude::*;
use vstd::string::*;

verus! {

/// Represents a HTTP method.
#[allow(clippy::upper_case_acronyms)]
#[derive(Debug, Clone, Copy, PartialEq, Eq, Structural, Hash, PartialOrd, Ord)]
pub enum Method {
    GET,
    HEAD,
    POST,
    PUT,
    DELETE,
    CONNECT,
    OPTIONS,
    TRACE,
    PATCH,
}

/// The canonical (upper-case) token of a method.
pub open spec fn token(m: Method) -> Seq<char> {
    match m {
        Method::GET => seq!['G', 'E', 'T'],
        Method::HEAD => seq!['H', 'E', 'A', 'D'],
        Method::POST => seq!['P', 'O', 'S', 'T'],
        Method::PUT => seq!['P', 'U', 'T'],
        Method::DELETE => seq!['D', 'E', 'L', 'E', 'T', 'E'],
        Method::CONNECT => seq!['C', 'O', 'N', 'N', 'E', 'C', 'T'],
        Method::OPTIONS => seq!['O', 'P', 'T', 'I', 'O', 'N', 'S'],
        Method::TRACE => seq!['T', 'R', 'A', 'C', 'E'],
        Method::PATCH => seq!['P', 'A', 'T', 'C', 'H'],
    }
}

/// `c` is the upper-case letter `u` or its ASCII lower-case form.
pub open spec fn same_letter(c: char, u: char) -> bool {
    c == u || ('A' <= u <= 'Z' && c as u32 == u as u32 + 32)
}

/// `s` spells `t` with ASCII letters in any case.
pub open spec fn equals_ignore_case(s: Seq<char>, t: Seq<char>) -> bool {
    s.len() == t.len() && forall|i: int| 0 <= i < s.len() ==> same_letter(#[trigger] s[i], t[i])
}

/// The method whose token `s` spells in any case, if any.
pub open spec fn method_ignore_case(s: Seq<char>) -> Option<Method> {
    if equals_ignore_case(s, token(Method::GET)) {
        Some(Method::GET)
    } else if equals_ignore_case(s, token(Method::HEAD)) {
        Some(Method::HEAD)
    } else if equals_ignore_case(s, token(Method::POST)) {
        Some(Method::POST)
    } else if equals_ignore_case(s, token(Method::PUT)) {
        Some(Method::PUT)
    } else if equals_ignore_case(s, token(Method::DELETE)) {
        Some(Method::DELETE)
    } else if equals_ignore_case(s, token(Method::CONNECT)) {
        Some(Method::CONNECT)
    } else if equals_ignore_case(s, token(Method::OPTIONS)) {
        Some(Method::OPTIONS)
    } else if equals_ignore_case(s, token(Method::TRACE)) {
        Some(Method::TRACE)
    } else if equals_ignore_case(s, token(Method::PATCH)) {
        Some(Method::PATCH)
    } else {
        None
    }
}

/// No string spells the tokens of two different methods, in any case.
proof fn lemma_tokens_distinct(s: Seq<char>, a: Method, b: Method)
    requires
        equals_ignore_case(s, token(a)),
        equals_ignore_case(s, token(b)),
    ensures
        a == b,
{
    assert(same_letter(s[0], token(a)[0]));
    assert(same_letter(s[0], token(b)[0]));
    if s.len() > 1 {
        assert(same_letter(s[1], token(a)[1]));
        assert(same_letter(s[1], token(b)[1]));
    }
}

/// Every method's token, written in any mix of ASCII cases, parses to that
/// method; a string that spells no token parses to none.
pub proof fn lemma_parse_any_case(s: Seq<char>, m: Method)
    ensures
        equals_ignore_case(s, token(m)) ==> method_ignore_case(s) == Some(m),
        method_ignore_case(s) matches Some(k) ==> equals_ignore_case(s, token(k)),
{
    if equals_ignore_case(s, token(m)) {
        if let Some(k) = method_ignore_case(s) {
            lemma_tokens_distinct(s, k, m);
        }
    }
}

/// A method's own token parses back to that method.
pub proof fn lemma_token_round_trip(m: Method)
    ensures
        method_ignore_case(token(m)) == Some(m),
{
    assert(equals_ignore_case(token(m), token(m)));
    lemma_parse_any_case(token(m), m);
}

/// Error raised when a request cannot be built from its parts.
#[derive(Debug, Clone, PartialEq, Eq)]
pub enum ValidationError {
    /// The method token names no known method; holds the token.
    InvalidMethod(String),
    /// The request target does not resolve to an absolute URL; holds the target.
    InvalidTarget(String),
}

/// Every method, in declaration order.
pub const ALL_METHODS: [Method; 9] = [
    Method::GET,
    Method::HEAD,
    Method::POST,
    Method::PUT,
    Method::DELETE,
    Method::CONNECT,
    Method::OPTIONS,
    Method::TRACE,
    Method::PATCH,
];

impl Default for Method {
    /// `GET`.
    fn default() -> (r: Method)
        ensures
            r == Method::GET,
    {
        Method::GET
    }
}

impl Method {
    /// The canonical token of this method, as characters.
    pub fn token_chars(&self) -> (r: Vec<char>)
        ensures
            r@ == token(*self),
    {
        let r = match self {
            Method::GET => vec!['G', 'E', 'T'],
            Method::HEAD => vec!['H', 'E', 'A', 'D'],
            Method::POST => vec!['P', 'O', 'S', 'T'],
            Method::PUT => vec!['P', 'U', 'T'],
            Method::DELETE => vec!['D', 'E', 'L', 'E', 'T', 'E'],
            Method::CONNECT => vec!['C', 'O', 'N', 'N', 'E', 'C', 'T'],
            Method::OPTIONS => vec!['O', 'P', 'T', 'I', 'O', 'N', 'S'],
            Method::TRACE => vec!['T', 'R', 'A', 'C', 'E'],
            Method::PATCH => vec!['P', 'A', 'T', 'C', 'H'],
        };
        assert(r@ =~= token(*self));
        r
    }

    /// The canonical token of this method.
    pub fn as_str(&self) -> (r: &'static str)
        ensures
            r@ == token(*self),
    {
        proof {
            reveal_strlit("GET");
            reveal_strlit("HEAD");
            reveal_strlit("POST");
            reveal_strlit("PUT");
            reveal_strlit("DELETE");
            reveal_strlit("CONNECT");
            reveal_strlit("OPTIONS");
            reveal_strlit("TRACE");
            reveal_strlit("PATCH");
        }
        let r = match self {
            Method::GET => "GET",
            Method::HEAD => "HEAD",
            Method::POST => "POST",
            Method::PUT => "PUT",
            Method::DELETE => "DELETE",
            Method::CONNECT => "CONNECT",
            Method::OPTIONS => "OPTIONS",
            Method::TRACE => "TRACE",
            Method::PATCH => "PATCH",
        };
        assert(r@ =~= token(*self));
        r
    }

    /// Parses a method token, ignoring the case of ASCII letters.
    pub fn parse(value: &str) -> (r: Result<Method, ValidationError>)
        ensures
            match method_ignore_case(value@) {
                Some(m) => r == Ok::<Method, ValidationError>(m),
                None => r matches Err(ValidationError::InvalidMethod(t)) && t@ == value@,
            },
    {
        let mut k: usize = 0;
        while k < 9
            invariant
                0 <= k <= 9,
                forall|j: int|
                    0 <= j < k ==> !equals_ignore_case(value@, token(#[trigger] ALL_METHODS@[j])),
            decreases 9 - k,
        {
            let m = ALL_METHODS[k];
            let t = m.token_chars();
            if same_ignore_case(value, &t) {
                return Ok(m);
            }
            k = k + 1;
        }
        Err(ValidationError::InvalidMethod(value.to_string()))
    }

    /// Converts a method token, as `parse` does: the case of ASCII letters
    /// does not matter.
    pub fn from_token(value: &str) -> (r: Result<Method, ValidationError>)
        ensures
            match method_ignore_case(value@) {
                Some(m) => r == Ok::<Method, ValidationError>(m),
                None => r matches Err(ValidationError::InvalidMethod(t)) && t@ == value@,
            },
    {
        Method::parse(value)
    }
}

/// Compares `s` with the upper-case token `t`, ignoring the case of ASCII letters.
fn same_ignore_case(s: &str, t: &Vec<char>) -> (r: bool)
    ensures
        r == equals_ignore_case(s@, t@),
{
    let n = s.unicode_len();
    if n != t.len() {
        return false;
    }
    let mut i: usize = 0;
    while i < n
        invariant
            n == s@.len() == t@.len(),
            0 <= i <= n,
            forall|j: int| 0 <= j < i ==> same_letter(#[trigger] s@[j], t@[j]),
        decreases n - i,
    {
        let c = s.get_char(i);
        let u = t[i];
        if !(c == u || ('A' <= u && u <= 'Z' && c as u32 == u as u32 + 32)) {
            return false;
        }
        i = i + 1;
    }
    true
}

} // verus!
