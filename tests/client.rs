use impersonate_client::{
    parse_method, BasicAuth, Client, ClientError, ClientOptions, HttpMethod, HttpVersion,
    RedirectPolicy,
};

fn pairs(items: &[(&str, &str)]) -> Vec<(String, String)> {
    items.iter().map(|(a, b)| (a.to_string(), b.to_string())).collect()
}

#[test]
fn parse_method_accepts_known_names() {
    assert_eq!(parse_method("GET").unwrap(), HttpMethod::Get);
    assert_eq!(parse_method("HEAD").unwrap(), HttpMethod::Head);
    assert_eq!(parse_method("OPTIONS").unwrap(), HttpMethod::Options);
    assert_eq!(parse_method("DELETE").unwrap(), HttpMethod::Delete);
    assert_eq!(parse_method("POST").unwrap(), HttpMethod::Post);
    assert_eq!(parse_method("PUT").unwrap(), HttpMethod::Put);
    assert_eq!(parse_method("PATCH").unwrap(), HttpMethod::Patch);
}

#[test]
fn parse_method_rejects_other_strings() {
    for s in ["get", "TRACE", "", "GETX", "POST "] {
        assert!(matches!(parse_method(s), Err(ClientError::Validation(_))), "{}", s);
    }
}

#[test]
fn method_names_round_trip() {
    for m in [
        HttpMethod::Get,
        HttpMethod::Head,
        HttpMethod::Options,
        HttpMethod::Delete,
        HttpMethod::Post,
        HttpMethod::Put,
        HttpMethod::Patch,
    ] {
        assert_eq!(parse_method(m.as_str()).unwrap(), m);
    }
    assert!(HttpMethod::Post.allows_body());
    assert!(!HttpMethod::Get.allows_body());
}

#[test]
fn new_resolves_defaults() {
    let c = Client::new(ClientOptions::new()).unwrap();
    assert!(c.transport.cookie_store);
    assert!(c.transport.referer);
    assert_eq!(c.transport.redirect, RedirectPolicy::Follow { max_hops: 20 });
    assert!(c.transport.accept_invalid_certs);
    assert_eq!(c.transport.http_version, HttpVersion::Auto);
    assert!(c.auth.is_none());
    assert!(c.params.is_none());
}

#[test]
fn new_applies_given_options() {
    let mut o = ClientOptions::new();
    o.cookie_store = Some(false);
    o.referer = Some(false);
    o.max_redirects = Some(1);
    o.verify = Some(true);
    o.http1 = Some(true);
    o.proxy = Some("http://127.0.0.1:8080".to_string());
    o.impersonate = Some("chrome_123".to_string());
    o.timeout_ms = Some(10_000);
    let c = Client::new(o).unwrap();
    assert!(!c.transport.cookie_store);
    assert!(!c.transport.referer);
    assert_eq!(c.transport.redirect, RedirectPolicy::Follow { max_hops: 1 });
    assert!(!c.transport.accept_invalid_certs);
    assert_eq!(c.transport.http_version, HttpVersion::Http1Only);
    assert_eq!(c.transport.proxy.as_deref(), Some("http://127.0.0.1:8080"));
    assert_eq!(c.transport.impersonate.as_deref(), Some("chrome_123"));
    assert_eq!(c.transport.timeout_ms, Some(10_000));
}

#[test]
fn new_never_follows_when_turned_off() {
    let mut o = ClientOptions::new();
    o.follow_redirects = Some(false);
    o.max_redirects = Some(5);
    let c = Client::new(o).unwrap();
    assert_eq!(c.transport.redirect, RedirectPolicy::Never);
}

#[test]
fn new_pins_http2() {
    let mut o = ClientOptions::new();
    o.http1 = Some(false);
    o.http2 = Some(true);
    let c = Client::new(o).unwrap();
    assert_eq!(c.transport.http_version, HttpVersion::Http2PriorKnowledge);
}

#[test]
fn new_rejects_both_auth_defaults() {
    for (user, pass, token) in [("name", Some("password"), "tok"), ("u", None, "x")] {
        let mut o = ClientOptions::new();
        o.auth = Some(BasicAuth::new(user.to_string(), pass.map(|p| p.to_string())));
        o.auth_bearer = Some(token.to_string());
        assert!(matches!(Client::new(o), Err(ClientError::Config(_))));
    }
}

#[test]
fn new_rejects_both_version_pins() {
    let mut o = ClientOptions::new();
    o.http1 = Some(true);
    o.http2 = Some(true);
    assert!(matches!(Client::new(o), Err(ClientError::Config(_))));
}

#[test]
fn new_rejects_bad_default_headers() {
    let mut o = ClientOptions::new();
    o.headers = Some(pairs(&[("bad name", "v")]));
    assert!(matches!(Client::new(o), Err(ClientError::Config(_))));
    let mut o = ClientOptions::new();
    o.headers = Some(pairs(&[("X-Ok", "line\nbreak")]));
    assert!(matches!(Client::new(o), Err(ClientError::Config(_))));
    let mut o = ClientOptions::new();
    o.headers = Some(pairs(&[("User-Agent", "Mozilla/5.0 (X11)")]));
    assert!(Client::new(o).is_ok());
}

#[test]
fn error_message_is_kept() {
    let mut o = ClientOptions::new();
    o.http1 = Some(true);
    o.http2 = Some(true);
    let e = Client::new(o).unwrap_err();
    assert_eq!(e.message(), "Both http1 and http2 cannot be true");
}

#[test]
fn impersonation_replaces_default_headers() {
    let mut o = ClientOptions::new();
    o.impersonate = Some("chrome_123".to_string());
    o.headers = Some(pairs(&[("A", "1")]));
    let c = Client::new(o).unwrap();
    assert!(c.transport.headers.is_none());
    let p = c.get("https://example.com", None, None, None, None, None).unwrap();
    assert!(p.headers.is_none());
    let p = c
        .get("https://example.com", None, Some(pairs(&[("B", "2")])), None, None, None)
        .unwrap();
    assert_eq!(p.headers.unwrap(), pairs(&[("B", "2")]));
}

#[test]
fn impersonation_still_checks_default_headers() {
    let mut o = ClientOptions::new();
    o.impersonate = Some("chrome_123".to_string());
    o.headers = Some(pairs(&[("bad name", "1")]));
    assert!(matches!(Client::new(o), Err(ClientError::Config(_))));
}

#[test]
fn default_headers_kept_without_impersonation() {
    let mut o = ClientOptions::new();
    o.headers = Some(pairs(&[("A", "1")]));
    let c = Client::new(o).unwrap();
    let p = c.get("https://example.com", None, None, None, None, None).unwrap();
    assert_eq!(p.headers.unwrap(), pairs(&[("A", "1")]));
}
