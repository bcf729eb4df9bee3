use vstd::prelude::*;
use crate::error::ClientError;
use crate::text::copy_opt_string;

verus! {

/// Credentials for basic authentication.
#[derive(Debug)]
pub struct BasicAuth {
    pub username: String,
    pub password: Option<String>,
}

impl BasicAuth {
    pub fn new(username: String, password: Option<String>) -> (r: BasicAuth)
        ensures
            r.username == username,
            r.password == password,
    {
        BasicAuth { username, password }
    }

    /// An owned copy.
    pub fn duplicate(&self) -> (r: BasicAuth)
        ensures
            r == *self,
    {
        BasicAuth { username: self.username.clone(), password: copy_opt_string(&self.password) }
    }
}

/// The single authentication mechanism attached to a request.
#[derive(Debug)]
pub enum Auth {
    Basic(BasicAuth),
    Bearer(String),
}

/// Whether a basic credential and a bearer token are both given.
pub open spec fn auth_conflict(basic: Option<BasicAuth>, bearer: Option<String>) -> bool {
    basic is Some && bearer is Some
}

/// The mechanism chosen from the effective basic credential and token,
/// when they do not conflict.
pub open spec fn auth_choice(basic: Option<BasicAuth>, bearer: Option<String>) -> Option<Auth> {
    match (basic, bearer) {
        (Some(b), None) => Some(Auth::Basic(b)),
        (None, Some(t)) => Some(Auth::Bearer(t)),
        _ => None,
    }
}

/// The effective value of an override: the per-call value when given,
/// else the default.
pub open spec fn or_default<T>(call: Option<T>, default: Option<T>) -> Option<T> {
    if call is Some {
        call
    } else {
        default
    }
}

/// Resolves the authentication of one request. Each of the basic
/// credential and the bearer token is taken from the call when given there,
/// else from the client's defaults; if both are then present the call is
/// rejected.
pub fn resolve_auth(
    call_basic: Option<BasicAuth>,
    call_bearer: Option<String>,
    default_basic: &Option<BasicAuth>,
    default_bearer: &Option<String>,
) -> (r: Result<Option<Auth>, ClientError>)
    ensures
        ({
            let basic = or_default(call_basic, *default_basic);
            let bearer = or_default(call_bearer, *default_bearer);
            &&& auth_conflict(basic, bearer) ==> r is Err && r->Err_0 is Validation
            &&& !auth_conflict(basic, bearer) ==> r == Ok::<Option<Auth>, ClientError>(
                auth_choice(basic, bearer),
            )
        }),
{
    let basic = match call_basic {
        Some(b) => Some(b),
        None => match default_basic {
            Some(b) => Some(b.duplicate()),
            None => None,
        },
    };
    let bearer = match call_bearer {
        Some(t) => Some(t),
        None => copy_opt_string(default_bearer),
    };
    match (basic, bearer) {
        (Some(b), None) => Ok(Some(Auth::Basic(b))),
        (None, Some(t)) => Ok(Some(Auth::Bearer(t))),
        (None, None) => Ok(None),
        (Some(_), Some(_)) => Err(
            ClientError::Validation(String::from_str("Cannot provide both auth and auth_bearer")),
        ),
    }
}

} // verus!
