use vstd::prelude::*;
use crate::error::ClientError;
use crate::text::str_equal;

verus! {

/// The request methods a client can issue.
#[derive(Clone, Copy, Debug, PartialEq, Eq, Structural)]
pub enum HttpMethod {
    Get,
    Head,
    Options,
    Delete,
    Post,
    Put,
    Patch,
}

/// The wire name of a method.
pub open spec fn method_name(m: HttpMethod) -> Seq<char> {
    match m {
        HttpMethod::Get => "GET"@,
        HttpMethod::Head => "HEAD"@,
        HttpMethod::Options => "OPTIONS"@,
        HttpMethod::Delete => "DELETE"@,
        HttpMethod::Post => "POST"@,
        HttpMethod::Put => "PUT"@,
        HttpMethod::Patch => "PATCH"@,
    }
}

/// The method whose wire name is exactly `s`, if there is one.
pub open spec fn method_from_name(s: Seq<char>) -> Option<HttpMethod> {
    if s == "GET"@ {
        Some(HttpMethod::Get)
    } else if s == "HEAD"@ {
        Some(HttpMethod::Head)
    } else if s == "OPTIONS"@ {
        Some(HttpMethod::Options)
    } else if s == "DELETE"@ {
        Some(HttpMethod::Delete)
    } else if s == "POST"@ {
        Some(HttpMethod::Post)
    } else if s == "PUT"@ {
        Some(HttpMethod::Put)
    } else if s == "PATCH"@ {
        Some(HttpMethod::Patch)
    } else {
        None
    }
}

impl HttpMethod {
    /// Only these methods carry a request body; for the others every body
    /// variant is ignored.
    pub open spec fn spec_allows_body(self) -> bool {
        self is Post || self is Put || self is Patch
    }

    pub fn allows_body(&self) -> (r: bool)
        ensures
            r == self.spec_allows_body(),
    {
        match self {
            HttpMethod::Post | HttpMethod::Put | HttpMethod::Patch => true,
            _ => false,
        }
    }

    /// The wire name of the method.
    pub fn as_str(&self) -> (r: &'static str)
        ensures
            r@ == method_name(*self),
    {
        match self {
            HttpMethod::Get => "GET",
            HttpMethod::Head => "HEAD",
            HttpMethod::Options => "OPTIONS",
            HttpMethod::Delete => "DELETE",
            HttpMethod::Post => "POST",
            HttpMethod::Put => "PUT",
            HttpMethod::Patch => "PATCH",
        }
    }
}

/// Reads a method from its exact, case-sensitive wire name; any other
/// string is a validation error.
pub fn parse_method(s: &str) -> (r: Result<HttpMethod, ClientError>)
    ensures
        match method_from_name(s@) {
            Some(m) => r == Ok::<HttpMethod, ClientError>(m),
            None => r is Err && r->Err_0 is Validation,
        },
{
    if str_equal(s, "GET") {
        Ok(HttpMethod::Get)
    } else if str_equal(s, "HEAD") {
        Ok(HttpMethod::Head)
    } else if str_equal(s, "OPTIONS") {
        Ok(HttpMethod::Options)
    } else if str_equal(s, "DELETE") {
        Ok(HttpMethod::Delete)
    } else if str_equal(s, "POST") {
        Ok(HttpMethod::Post)
    } else if str_equal(s, "PUT") {
        Ok(HttpMethod::Put)
    } else if str_equal(s, "PATCH") {
        Ok(HttpMethod::Patch)
    } else {
        Err(ClientError::Validation(String::from_str("Unrecognized HTTP method")))
    }
}

/// Every method's wire name reads back as that method.
pub proof fn lemma_method_name_round_trip(m: HttpMethod)
    ensures
        method_from_name(method_name(m)) == Some(m),
{
    reveal_strlit("GET");
    reveal_strlit("HEAD");
    reveal_strlit("OPTIONS");
    reveal_strlit("DELETE");
    reveal_strlit("POST");
    reveal_strlit("PUT");
    reveal_strlit("PATCH");
    match m {
        HttpMethod::Get => {},
        HttpMethod::Head => {
            assert("HEAD"@[0] != "GET"@[0]);
        },
        HttpMethod::Options => {
            assert("OPTIONS"@[0] != "GET"@[0]);
            assert("OPTIONS"@[0] != "HEAD"@[0]);
        },
        HttpMethod::Delete => {
            assert("DELETE"@[0] != "GET"@[0]);
            assert("DELETE"@[0] != "HEAD"@[0]);
            assert("DELETE"@[0] != "OPTIONS"@[0]);
        },
        HttpMethod::Post => {
            assert("POST"@[0] != "GET"@[0]);
            assert("POST"@[0] != "HEAD"@[0]);
            assert("POST"@[0] != "OPTIONS"@[0]);
            assert("POST"@[0] != "DELETE"@[0]);
        },
        HttpMethod::Put => {
            assert("PUT"@[0] != "GET"@[0]);
            assert("PUT"@[0] != "HEAD"@[0]);
            assert("PUT"@[0] != "OPTIONS"@[0]);
            assert("PUT"@[0] != "DELETE"@[0]);
            assert("PUT"@[1] != "POST"@[1]);
        },
        HttpMethod::Patch => {
            assert("PATCH"@[0] != "GET"@[0]);
            assert("PATCH"@[0] != "HEAD"@[0]);
            assert("PATCH"@[0] != "OPTIONS"@[0]);
            assert("PATCH"@[0] != "DELETE"@[0]);
            assert("PATCH"@[1] != "POST"@[1]);
            assert("PATCH"@[1] != "PUT"@[1]);
        },
    }
}

} // verus!
