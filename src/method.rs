//! Request methods.
use vstd::prelude::*;

use crate::text::same_text;

verus! {

/// The request methods of HTTP/1.1; any other token is `Unsupported`.
#[derive(Debug, PartialEq, Eq, Structural, Clone, Copy)]
pub enum Method {
    CONNECT,
    DELETE,
    GET,
    HEAD,
    OPTIONS,
    POST,
    PUT,
    TRACE,
    Unsupported,
}

/// The token that names `m` on the wire.
pub open spec fn method_token(m: Method) -> Seq<char> {
    match m {
        Method::CONNECT => "CONNECT"@,
        Method::DELETE => "DELETE"@,
        Method::GET => "GET"@,
        Method::HEAD => "HEAD"@,
        Method::OPTIONS => "OPTIONS"@,
        Method::POST => "POST"@,
        Method::PUT => "PUT"@,
        Method::TRACE => "TRACE"@,
        Method::Unsupported => "Unsupported"@,
    }
}

/// The method that the token `s` names; tokens are compared exactly.
pub open spec fn method_of(s: Seq<char>) -> Method {
    if s == "CONNECT"@ {
        Method::CONNECT
    } else if s == "DELETE"@ {
        Method::DELETE
    } else if s == "GET"@ {
        Method::GET
    } else if s == "HEAD"@ {
        Method::HEAD
    } else if s == "OPTIONS"@ {
        Method::OPTIONS
    } else if s == "POST"@ {
        Method::POST
    } else if s == "PUT"@ {
        Method::PUT
    } else if s == "TRACE"@ {
        Method::TRACE
    } else {
        Method::Unsupported
    }
}

impl Default for Method {
    fn default() -> (r: Method)
        ensures
            r == Method::Unsupported,
    {
        Method::Unsupported
    }
}

impl Method {
    /// Parses a method token; an unknown token gives `Unsupported`.
    pub fn from_str(s: &String) -> (r: Method)
        ensures
            r == method_of(s@),
    {
        let t = s.as_str();
        if same_text(t, "CONNECT") {
            Method::CONNECT
        } else if same_text(t, "DELETE") {
            Method::DELETE
        } else if same_text(t, "GET") {
            Method::GET
        } else if same_text(t, "HEAD") {
            Method::HEAD
        } else if same_text(t, "OPTIONS") {
            Method::OPTIONS
        } else if same_text(t, "POST") {
            Method::POST
        } else if same_text(t, "PUT") {
            Method::PUT
        } else if same_text(t, "TRACE") {
            Method::TRACE
        } else {
            Method::Unsupported
        }
    }

    /// The token that names this method.
    pub fn to_str(&self) -> (r: &'static str)
        ensures
            r@ == method_token(*self),
    {
        match *self {
            Method::CONNECT => "CONNECT",
            Method::DELETE => "DELETE",
            Method::GET => "GET",
            Method::HEAD => "HEAD",
            Method::OPTIONS => "OPTIONS",
            Method::POST => "POST",
            Method::PUT => "PUT",
            Method::TRACE => "TRACE",
            Method::Unsupported => "Unsupported",
        }
    }

    /// The token that names this method (same as `to_str`).
    pub fn as_str(&self) -> (r: &'static str)
        ensures
            r@ == method_token(*self),
    {
        self.to_str()
    }
}

/// Every method of the closed set reads back from its own token, and any token
/// outside the set reads as `Unsupported`.
pub proof fn lemma_method_round_trip(m: Method, s: Seq<char>)
    ensures
        m != Method::Unsupported ==> method_of(method_token(m)) == m,
        (forall|k: Method| k != Method::Unsupported ==> s != method_token(k)) ==> method_of(s)
            == Method::Unsupported,
{
    reveal_strlit("CONNECT");
    reveal_strlit("DELETE");
    reveal_strlit("GET");
    reveal_strlit("HEAD");
    reveal_strlit("OPTIONS");
    reveal_strlit("POST");
    reveal_strlit("PUT");
    reveal_strlit("TRACE");
    assert("CONNECT"@.len() == 7);
    assert("DELETE"@.len() == 6);
    assert("GET"@.len() == 3);
    assert("HEAD"@.len() == 4);
    assert("OPTIONS"@.len() == 7);
    assert("POST"@.len() == 4);
    assert("PUT"@.len() == 3);
    assert("TRACE"@.len() == 5);
    assert("GET"@[0] != "PUT"@[0]);
    assert("HEAD"@[0] != "POST"@[0]);
    assert("CONNECT"@[0] != "OPTIONS"@[0]);
    if (forall|k: Method| k != Method::Unsupported ==> s != method_token(k)) {
        assert(s != method_token(Method::CONNECT));
        assert(s != method_token(Method::DELETE));
        assert(s != method_token(Method::GET));
        assert(s != method_token(Method::HEAD));
        assert(s != method_token(Method::OPTIONS));
        assert(s != method_token(Method::POST));
        assert(s != method_token(Method::PUT));
        assert(s != method_token(Method::TRACE));
    }
}

} // verus!
