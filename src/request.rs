use vstd::prelude::*;
use crate::auth::{auth_choice, auth_conflict, or_default, resolve_auth, Auth, BasicAuth};
use crate::client::Client;
use crate::error::ClientError;
use crate::form::{encode_form, form_text};
use crate::headers::{check_headers, headers_ok};
use crate::json::{json_text, JsonValue};
use crate::method::{method_from_name, method_name, parse_method, HttpMethod};
use crate::text::copy_opt_pairs;

verus! {

/// The body a request carries.
#[derive(Debug)]
pub enum RequestBody {
    /// Bytes sent as they are.
    Raw(Vec<u8>),
    /// An `application/x-www-form-urlencoded` text.
    Form(String),
    /// A JSON text.
    Json(String),
    /// Field names and the paths of the files sent under them, one
    /// multipart part each.
    Files(Vec<(String, String)>),
}

/// The content type a body forces.
#[derive(Clone, Copy, Debug, PartialEq, Eq, Structural)]
pub enum ContentType {
    FormUrlEncoded,
    Json,
    /// Multipart form data; the transport adds the boundary.
    Multipart,
}

impl ContentType {
    pub fn as_str(&self) -> (r: &'static str)
        ensures
            *self is FormUrlEncoded ==> r@ == "application/x-www-form-urlencoded"@,
            *self is Json ==> r@ == "application/json"@,
            *self is Multipart ==> r@ == "multipart/form-data"@,
    {
        match self {
            ContentType::FormUrlEncoded => "application/x-www-form-urlencoded",
            ContentType::Json => "application/json",
            ContentType::Multipart => "multipart/form-data",
        }
    }
}

/// A fully specified request, ready for the transport.
#[derive(Debug)]
pub struct PreparedRequest {
    pub method: HttpMethod,
    pub url: String,
    /// Query parameters appended to the URL.
    pub query: Option<Vec<(String, String)>>,
    /// The headers of the request: the call's, else the client's defaults.
    /// With an impersonation profile the client keeps no defaults, and the
    /// transport adds the profile's headers.
    pub headers: Option<Vec<(String, String)>>,
    pub body: Option<RequestBody>,
    pub content_type: Option<ContentType>,
    pub auth: Option<Auth>,
    pub timeout_ms: Option<u64>,
}

pub open spec fn pairs_view(o: Option<Vec<(String, String)>>) -> Option<Seq<(String, String)>> {
    match o {
        Some(v) => Some(v@),
        None => None,
    }
}

/// Whether a per-call header map holds a header that cannot be sent.
pub open spec fn bad_headers(h: Option<Vec<(String, String)>>) -> bool {
    h matches Some(v) && !headers_ok(v@)
}

/// The body left after the supplied variants are applied in the order
/// content, form fields, JSON, files, each replacing the one before; none
/// for a method that carries no body.
pub open spec fn body_matches(
    b: Option<RequestBody>,
    allows_body: bool,
    content: Option<Vec<u8>>,
    data: Option<Vec<(String, Vec<String>)>>,
    json: Option<JsonValue>,
    files: Option<Vec<(String, String)>>,
) -> bool {
    if !allows_body {
        b is None
    } else if files is Some {
        b matches Some(RequestBody::Files(f)) && f@ == files->0@
    } else if json is Some {
        b matches Some(RequestBody::Json(t)) && t@ == json_text(json->0)
    } else if data is Some {
        b matches Some(RequestBody::Form(t)) && t@ == form_text(data->0@)
    } else if content is Some {
        b matches Some(RequestBody::Raw(c)) && c@ == content->0@
    } else {
        b is None
    }
}

/// The content type forced by the last variant applied that forces one.
pub open spec fn content_type_of(
    allows_body: bool,
    data: Option<Vec<(String, Vec<String>)>>,
    json: Option<JsonValue>,
    files: Option<Vec<(String, String)>>,
) -> Option<ContentType> {
    if !allows_body {
        None
    } else if files is Some {
        Some(ContentType::Multipart)
    } else if json is Some {
        Some(ContentType::Json)
    } else if data is Some {
        Some(ContentType::FormUrlEncoded)
    } else {
        None
    }
}

/// Whether a call is refused: an unknown method, a header that cannot be
/// sent, or both a basic credential and a bearer token once defaults are
/// applied.
pub open spec fn request_rejected(
    c: Client,
    method: Seq<char>,
    headers: Option<Vec<(String, String)>>,
    auth: Option<BasicAuth>,
    auth_bearer: Option<String>,
) -> bool {
    ||| method_from_name(method) is None
    ||| bad_headers(headers)
    ||| auth_conflict(or_default(auth, c.auth), or_default(auth_bearer, c.auth_bearer))
}

/// The request a call on client `c` prepares: each per-call value, when
/// given, replaces the client's default as a whole.
pub open spec fn prepared_as(
    c: Client,
    method: Seq<char>,
    url: Seq<char>,
    params: Option<Vec<(String, String)>>,
    headers: Option<Vec<(String, String)>>,
    content: Option<Vec<u8>>,
    data: Option<Vec<(String, Vec<String>)>>,
    json: Option<JsonValue>,
    files: Option<Vec<(String, String)>>,
    auth: Option<BasicAuth>,
    auth_bearer: Option<String>,
    timeout_ms: Option<u64>,
    p: PreparedRequest,
) -> bool {
    let m = method_from_name(method)->0;
    &&& method_from_name(method) == Some(p.method)
    &&& p.url@ == url
    &&& pairs_view(p.query) == or_default(pairs_view(params), pairs_view(c.params))
    &&& pairs_view(p.headers) == or_default(pairs_view(headers), pairs_view(c.transport.headers))
    &&& body_matches(p.body, m.spec_allows_body(), content, data, json, files)
    &&& p.content_type == content_type_of(m.spec_allows_body(), data, json, files)
    &&& p.auth == auth_choice(or_default(auth, c.auth), or_default(auth_bearer, c.auth_bearer))
    &&& p.timeout_ms == timeout_ms
}

/// What a call on client `c` returns: a validation error when refused,
/// else the prepared request.
pub open spec fn request_outcome(
    c: Client,
    method: Seq<char>,
    url: Seq<char>,
    params: Option<Vec<(String, String)>>,
    headers: Option<Vec<(String, String)>>,
    content: Option<Vec<u8>>,
    data: Option<Vec<(String, Vec<String>)>>,
    json: Option<JsonValue>,
    files: Option<Vec<(String, String)>>,
    auth: Option<BasicAuth>,
    auth_bearer: Option<String>,
    timeout_ms: Option<u64>,
    r: Result<PreparedRequest, ClientError>,
) -> bool {
    &&& request_rejected(c, method, headers, auth, auth_bearer) ==> r is Err && r->Err_0 is Validation
    &&& !request_rejected(c, method, headers, auth, auth_bearer) ==> r is Ok && prepared_as(
        c,
        method,
        url,
        params,
        headers,
        content,
        data,
        json,
        files,
        auth,
        auth_bearer,
        timeout_ms,
        r->Ok_0,
    )
}

impl Client {
    /// Assembles one request from the call's values and the client's
    /// defaults. It performs no I/O.
    pub fn request(
        &self,
        method: &str,
        url: &str,
        params: Option<Vec<(String, String)>>,
        headers: Option<Vec<(String, String)>>,
        content: Option<Vec<u8>>,
        data: Option<Vec<(String, Vec<String>)>>,
        json: Option<JsonValue>,
        files: Option<Vec<(String, String)>>,
        auth: Option<BasicAuth>,
        auth_bearer: Option<String>,
        timeout_ms: Option<u64>,
    ) -> (r: Result<PreparedRequest, ClientError>)
        ensures
            request_outcome(
                *self,
                method@,
                url@,
                params,
                headers,
                content,
                data,
                json,
                files,
                auth,
                auth_bearer,
                timeout_ms,
                r,
            ),
    {
        let method = parse_method(method)?;
        let query = match params {
            Some(p) => Some(p),
            None => copy_opt_pairs(&self.params),
        };
        let headers_valid = match &headers {
            Some(h) => check_headers(h),
            None => true,
        };
        if !headers_valid {
            return Err(ClientError::Validation(String::from_str("Invalid header name or value")));
        }
        let headers = match headers {
            Some(h) => Some(h),
            None => copy_opt_pairs(&self.transport.headers),
        };
        let mut body: Option<RequestBody> = None;
        let mut content_type: Option<ContentType> = None;
        if method.allows_body() {
            if let Some(c) = content {
                body = Some(RequestBody::Raw(c));
            }
            if let Some(d) = data {
                body = Some(RequestBody::Form(encode_form(&d)));
                content_type = Some(ContentType::FormUrlEncoded);
            }
            if let Some(j) = json {
                body = Some(RequestBody::Json(j.to_json()));
                content_type = Some(ContentType::Json);
            }
            if let Some(f) = files {
                body = Some(RequestBody::Files(f));
                content_type = Some(ContentType::Multipart);
            }
        }
        let auth = resolve_auth(auth, auth_bearer, &self.auth, &self.auth_bearer)?;
        Ok(PreparedRequest {
            method,
            url: String::from_str(url),
            query,
            headers,
            body,
            content_type,
            auth,
            timeout_ms,
        })
    }

    /// `request` with the method fixed to GET and no body.
    pub fn get(
        &self,
        url: &str,
        params: Option<Vec<(String, String)>>,
        headers: Option<Vec<(String, String)>>,
        auth: Option<BasicAuth>,
        auth_bearer: Option<String>,
        timeout_ms: Option<u64>,
    ) -> (r: Result<PreparedRequest, ClientError>)
        ensures
            request_outcome(
                *self,
                "GET"@,
                url@,
                params,
                headers,
                None,
                None,
                None,
                None,
                auth,
                auth_bearer,
                timeout_ms,
                r,
            ),
    {
        self.request("GET", url, params, headers, None, None, None, None, auth, auth_bearer, timeout_ms)
    }

    /// `request` with the method fixed to HEAD and no body.
    pub fn head(
        &self,
        url: &str,
        params: Option<Vec<(String, String)>>,
        headers: Option<Vec<(String, String)>>,
        auth: Option<BasicAuth>,
        auth_bearer: Option<String>,
        timeout_ms: Option<u64>,
    ) -> (r: Result<PreparedRequest, ClientError>)
        ensures
            request_outcome(
                *self,
                "HEAD"@,
                url@,
                params,
                headers,
                None,
                None,
                None,
                None,
                auth,
                auth_bearer,
                timeout_ms,
                r,
            ),
    {
        self.request("HEAD", url, params, headers, None, None, None, None, auth, auth_bearer, timeout_ms)
    }

    /// `request` with the method fixed to OPTIONS and no body.
    pub fn options(
        &self,
        url: &str,
        params: Option<Vec<(String, String)>>,
        headers: Option<Vec<(String, String)>>,
        auth: Option<BasicAuth>,
        auth_bearer: Option<String>,
        timeout_ms: Option<u64>,
    ) -> (r: Result<PreparedRequest, ClientError>)
        ensures
            request_outcome(
                *self,
                "OPTIONS"@,
                url@,
                params,
                headers,
                None,
                None,
                None,
                None,
                auth,
                auth_bearer,
                timeout_ms,
                r,
            ),
    {
        self.request("OPTIONS", url, params, headers, None, None, None, None, auth, auth_bearer, timeout_ms)
    }

    /// `request` with the method fixed to DELETE and no body.
    pub fn delete(
        &self,
        url: &str,
        params: Option<Vec<(String, String)>>,
        headers: Option<Vec<(String, String)>>,
        auth: Option<BasicAuth>,
        auth_bearer: Option<String>,
        timeout_ms: Option<u64>,
    ) -> (r: Result<PreparedRequest, ClientError>)
        ensures
            request_outcome(
                *self,
                "DELETE"@,
                url@,
                params,
                headers,
                None,
                None,
                None,
                None,
                auth,
                auth_bearer,
                timeout_ms,
                r,
            ),
    {
        self.request("DELETE", url, params, headers, None, None, None, None, auth, auth_bearer, timeout_ms)
    }

    /// `request` with the method fixed to POST.
    pub fn post(
        &self,
        url: &str,
        params: Option<Vec<(String, String)>>,
        headers: Option<Vec<(String, String)>>,
        content: Option<Vec<u8>>,
        data: Option<Vec<(String, Vec<String>)>>,
        json: Option<JsonValue>,
        files: Option<Vec<(String, String)>>,
        auth: Option<BasicAuth>,
        auth_bearer: Option<String>,
        timeout_ms: Option<u64>,
    ) -> (r: Result<PreparedRequest, ClientError>)
        ensures
            request_outcome(
                *self,
                "POST"@,
                url@,
                params,
                headers,
                content,
                data,
                json,
                files,
                auth,
                auth_bearer,
                timeout_ms,
                r,
            ),
    {
        self.request("POST", url, params, headers, content, data, json, files, auth, auth_bearer, timeout_ms)
    }

    /// `request` with the method fixed to PUT.
    pub fn put(
        &self,
        url: &str,
        params: Option<Vec<(String, String)>>,
        headers: Option<Vec<(String, String)>>,
        content: Option<Vec<u8>>,
        data: Option<Vec<(String, Vec<String>)>>,
        json: Option<JsonValue>,
        files: Option<Vec<(String, String)>>,
        auth: Option<BasicAuth>,
        auth_bearer: Option<String>,
        timeout_ms: Option<u64>,
    ) -> (r: Result<PreparedRequest, ClientError>)
        ensures
            request_outcome(
                *self,
                "PUT"@,
                url@,
                params,
                headers,
                content,
                data,
                json,
                files,
                auth,
                auth_bearer,
                timeout_ms,
                r,
            ),
    {
        self.request("PUT", url, params, headers, content, data, json, files, auth, auth_bearer, timeout_ms)
    }

    /// `request` with the method fixed to PATCH.
    pub fn patch(
        &self,
        url: &str,
        params: Option<Vec<(String, String)>>,
        headers: Option<Vec<(String, String)>>,
        content: Option<Vec<u8>>,
        data: Option<Vec<(String, Vec<String>)>>,
        json: Option<JsonValue>,
        files: Option<Vec<(String, String)>>,
        auth: Option<BasicAuth>,
        auth_bearer: Option<String>,
        timeout_ms: Option<u64>,
    ) -> (r: Result<PreparedRequest, ClientError>)
        ensures
            request_outcome(
                *self,
                "PATCH"@,
                url@,
                params,
                headers,
                content,
                data,
                json,
                files,
                auth,
                auth_bearer,
                timeout_ms,
                r,
            ),
    {
        self.request("PATCH", url, params, headers, content, data, json, files, auth, auth_bearer, timeout_ms)
    }
}

/// A call with a known method reaches the transport with exactly that
/// method; a call with any other method string is refused with a
/// validation error.
pub proof fn lemma_method_reaches_transport(
    c: Client,
    method: Seq<char>,
    url: Seq<char>,
    params: Option<Vec<(String, String)>>,
    headers: Option<Vec<(String, String)>>,
    content: Option<Vec<u8>>,
    data: Option<Vec<(String, Vec<String>)>>,
    json: Option<JsonValue>,
    files: Option<Vec<(String, String)>>,
    auth: Option<BasicAuth>,
    auth_bearer: Option<String>,
    timeout_ms: Option<u64>,
    r: Result<PreparedRequest, ClientError>,
)
    requires
        request_outcome(
            c,
            method,
            url,
            params,
            headers,
            content,
            data,
            json,
            files,
            auth,
            auth_bearer,
            timeout_ms,
            r,
        ),
    ensures
        r is Ok ==> method_name(r->Ok_0.method) == method,
        method_from_name(method) is None ==> r is Err && r->Err_0 is Validation,
{
}

/// Giving both a basic credential and a bearer token to one call always
/// fails with a validation error, whatever the client's defaults.
pub proof fn lemma_conflicting_call_auth_rejected(
    c: Client,
    method: Seq<char>,
    url: Seq<char>,
    params: Option<Vec<(String, String)>>,
    headers: Option<Vec<(String, String)>>,
    content: Option<Vec<u8>>,
    data: Option<Vec<(String, Vec<String>)>>,
    json: Option<JsonValue>,
    files: Option<Vec<(String, String)>>,
    auth: Option<BasicAuth>,
    auth_bearer: Option<String>,
    timeout_ms: Option<u64>,
    r: Result<PreparedRequest, ClientError>,
)
    requires
        auth is Some,
        auth_bearer is Some,
        request_outcome(
            c,
            method,
            url,
            params,
            headers,
            content,
            data,
            json,
            files,
            auth,
            auth_bearer,
            timeout_ms,
            r,
        ),
    ensures
        r is Err && r->Err_0 is Validation,
{
}

/// A per-call header map or query map, when given, replaces the client's
/// default as a whole: exactly its pairs reach the transport.
pub proof fn lemma_call_maps_replace_defaults(
    c: Client,
    method: Seq<char>,
    url: Seq<char>,
    params: Option<Vec<(String, String)>>,
    headers: Option<Vec<(String, String)>>,
    content: Option<Vec<u8>>,
    data: Option<Vec<(String, Vec<String>)>>,
    json: Option<JsonValue>,
    files: Option<Vec<(String, String)>>,
    auth: Option<BasicAuth>,
    auth_bearer: Option<String>,
    timeout_ms: Option<u64>,
    r: Result<PreparedRequest, ClientError>,
)
    requires
        request_outcome(
            c,
            method,
            url,
            params,
            headers,
            content,
            data,
            json,
            files,
            auth,
            auth_bearer,
            timeout_ms,
            r,
        ),
        r is Ok,
    ensures
        headers is Some ==> r->Ok_0.headers is Some && r->Ok_0.headers->0@ == headers->0@,
        params is Some ==> r->Ok_0.query is Some && r->Ok_0.query->0@ == params->0@,
{
}

} // verus!
