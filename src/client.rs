use vstd::prelude::*;
use crate::auth::BasicAuth;
use crate::error::ClientError;
use crate::headers::{check_headers, headers_ok};

verus! {

/// How redirects are handled by the transport.
#[derive(Clone, Copy, Debug, PartialEq, Eq, Structural)]
pub enum RedirectPolicy {
    /// Follow up to `max_hops` redirects.
    Follow { max_hops: usize },
    /// Return a redirect response as it is.
    Never,
}

/// Which HTTP versions the transport may speak.
#[derive(Clone, Copy, Debug, PartialEq, Eq, Structural)]
pub enum HttpVersion {
    Auto,
    Http1Only,
    Http2PriorKnowledge,
}

/// Redirect hops followed when the options name no limit.
pub const DEFAULT_MAX_REDIRECTS: usize = 20;

/// Declarative client options; every field may be left out.
#[derive(Debug)]
pub struct ClientOptions {
    pub auth: Option<BasicAuth>,
    pub auth_bearer: Option<String>,
    pub params: Option<Vec<(String, String)>>,
    pub headers: Option<Vec<(String, String)>>,
    pub cookie_store: Option<bool>,
    pub referer: Option<bool>,
    pub proxy: Option<String>,
    pub timeout_ms: Option<u64>,
    pub impersonate: Option<String>,
    pub follow_redirects: Option<bool>,
    pub max_redirects: Option<usize>,
    pub verify: Option<bool>,
    pub http1: Option<bool>,
    pub http2: Option<bool>,
}

impl ClientOptions {
    /// Options with every field left out.
    pub fn new() -> (r: ClientOptions)
        ensures
            r.auth is None,
            r.auth_bearer is None,
            r.params is None,
            r.headers is None,
            r.cookie_store is None,
            r.referer is None,
            r.proxy is None,
            r.timeout_ms is None,
            r.impersonate is None,
            r.follow_redirects is None,
            r.max_redirects is None,
            r.verify is None,
            r.http1 is None,
            r.http2 is None,
    {
        ClientOptions {
            auth: None,
            auth_bearer: None,
            params: None,
            headers: None,
            cookie_store: None,
            referer: None,
            proxy: None,
            timeout_ms: None,
            impersonate: None,
            follow_redirects: None,
            max_redirects: None,
            verify: None,
            http1: None,
            http2: None,
        }
    }
}

/// What the transport is built from, with every default resolved.
#[derive(Debug)]
pub struct TransportSettings {
    pub headers: Option<Vec<(String, String)>>,
    pub cookie_store: bool,
    pub referer: bool,
    pub proxy: Option<String>,
    pub timeout_ms: Option<u64>,
    pub impersonate: Option<String>,
    pub redirect: RedirectPolicy,
    pub accept_invalid_certs: bool,
    pub http_version: HttpVersion,
}

/// HTTP client configuration: the defaults applied to each request and
/// the settings of the transport that carries them.
#[derive(Debug)]
pub struct Client {
    pub auth: Option<BasicAuth>,
    pub auth_bearer: Option<String>,
    pub params: Option<Vec<(String, String)>>,
    pub transport: TransportSettings,
}

pub open spec fn flag_or(o: Option<bool>, default: bool) -> bool {
    match o {
        Some(b) => b,
        None => default,
    }
}

/// The redirect policy the options ask for.
pub open spec fn redirect_of(follow: Option<bool>, max: Option<usize>) -> RedirectPolicy {
    if flag_or(follow, true) {
        RedirectPolicy::Follow {
            max_hops: match max {
                Some(m) => m,
                None => DEFAULT_MAX_REDIRECTS,
            },
        }
    } else {
        RedirectPolicy::Never
    }
}

/// The version pin the options ask for, when they do not conflict.
pub open spec fn version_of(http1: Option<bool>, http2: Option<bool>) -> HttpVersion {
    if http1 == Some(true) {
        HttpVersion::Http1Only
    } else if http2 == Some(true) {
        HttpVersion::Http2PriorKnowledge
    } else {
        HttpVersion::Auto
    }
}

/// Whether the options pin both HTTP/1 and HTTP/2.
pub open spec fn version_conflict(http1: Option<bool>, http2: Option<bool>) -> bool {
    http1 == Some(true) && http2 == Some(true)
}

/// Whether options hold a default header that cannot be sent.
pub open spec fn bad_default_headers(h: Option<Vec<(String, String)>>) -> bool {
    h matches Some(v) && !headers_ok(v@)
}

/// Whether `new` refuses the options.
pub open spec fn options_rejected(o: ClientOptions) -> bool {
    ||| (o.auth is Some && o.auth_bearer is Some)
    ||| bad_default_headers(o.headers)
    ||| version_conflict(o.http1, o.http2)
}

/// The default headers a client keeps: none when an impersonation profile
/// is set, whose own headers replace them.
pub open spec fn kept_default_headers(
    headers: Option<Vec<(String, String)>>,
    impersonate: Option<String>,
) -> Option<Vec<(String, String)>> {
    if impersonate is Some {
        None
    } else {
        headers
    }
}

/// The client that `new` builds from accepted options.
pub open spec fn client_of(o: ClientOptions) -> Client {
    Client {
        auth: o.auth,
        auth_bearer: o.auth_bearer,
        params: o.params,
        transport: TransportSettings {
            headers: kept_default_headers(o.headers, o.impersonate),
            cookie_store: flag_or(o.cookie_store, true),
            referer: flag_or(o.referer, true),
            proxy: o.proxy,
            timeout_ms: o.timeout_ms,
            impersonate: o.impersonate,
            redirect: redirect_of(o.follow_redirects, o.max_redirects),
            accept_invalid_certs: !flag_or(o.verify, false),
            http_version: version_of(o.http1, o.http2),
        },
    }
}

impl Client {
    /// Checks the options and resolves their defaults: cookies kept and
    /// referer set unless turned off, redirects followed up to twenty hops,
    /// certificates not verified unless asked for. Both a basic credential
    /// and a bearer token, a default header that cannot be sent, or both
    /// version pins are configuration errors. Default headers are checked
    /// even when an impersonation profile is set, and then left out: the
    /// profile's headers replace them.
    ///
    /// Whether the profile name is known and the proxy URL well formed is
    /// decided by the transport, which is built from these settings after
    /// `new` returns; a failure there is a configuration error too.
    pub fn new(options: ClientOptions) -> (r: Result<Client, ClientError>)
        ensures
            options_rejected(options) ==> r is Err && r->Err_0 is Config,
            !options_rejected(options) ==> r is Ok && r->Ok_0 == client_of(options),
            r is Ok && options.impersonate is Some ==> r->Ok_0.transport.headers is None,
    {
        if options.auth.is_some() && options.auth_bearer.is_some() {
            return Err(
                ClientError::Config(String::from_str("Cannot provide both auth and auth_bearer")),
            );
        }
        let headers_valid = match &options.headers {
            Some(h) => check_headers(h),
            None => true,
        };
        if !headers_valid {
            return Err(ClientError::Config(String::from_str("Invalid header name or value")));
        }
        let http_version = match (options.http1, options.http2) {
            (Some(true), Some(true)) => {
                return Err(
                    ClientError::Config(String::from_str("Both http1 and http2 cannot be true")),
                );
            },
            (Some(true), _) => HttpVersion::Http1Only,
            (_, Some(true)) => HttpVersion::Http2PriorKnowledge,
            _ => HttpVersion::Auto,
        };
        let redirect = if options.follow_redirects.unwrap_or(true) {
            RedirectPolicy::Follow { max_hops: options.max_redirects.unwrap_or(DEFAULT_MAX_REDIRECTS) }
        } else {
            RedirectPolicy::Never
        };
        let headers = if options.impersonate.is_some() {
            None
        } else {
            options.headers
        };
        let transport = TransportSettings {
            headers,
            cookie_store: options.cookie_store.unwrap_or(true),
            referer: options.referer.unwrap_or(true),
            proxy: options.proxy,
            timeout_ms: options.timeout_ms,
            impersonate: options.impersonate,
            redirect,
            accept_invalid_certs: !options.verify.unwrap_or(false),
            http_version,
        };
        Ok(Client {
            auth: options.auth,
            auth_bearer: options.auth_bearer,
            params: options.params,
            transport,
        })
    }
}

} // verus!
