use impersonate_client::{
    resolve_auth, Auth, BasicAuth, Client, ClientError, ClientOptions, ContentType, HttpMethod, JsonValue,
    RequestBody,
};

fn pairs(items: &[(&str, &str)]) -> Vec<(String, String)> {
    items.iter().map(|(a, b)| (a.to_string(), b.to_string())).collect()
}

fn client_with_defaults() -> Client {
    let mut o = ClientOptions::new();
    o.params = Some(pairs(&[("A", "1")]));
    o.headers = Some(pairs(&[("A", "1")]));
    Client::new(o).unwrap()
}

#[test]
fn request_keeps_method_and_url() {
    let c = Client::new(ClientOptions::new()).unwrap();
    let p = c
        .request("DELETE", "https://example.com/x", None, None, None, None, None, None, None, None, None)
        .unwrap();
    assert_eq!(p.method, HttpMethod::Delete);
    assert_eq!(p.url, "https://example.com/x");
    assert!(p.query.is_none());
    assert!(p.headers.is_none());
    assert!(p.body.is_none());
    assert!(p.auth.is_none());
    assert!(p.timeout_ms.is_none());
}

#[test]
fn request_rejects_unknown_method() {
    let c = Client::new(ClientOptions::new()).unwrap();
    let r = c.request("FETCH", "https://example.com", None, None, None, None, None, None, None, None, None);
    assert!(matches!(r, Err(ClientError::Validation(_))));
}

#[test]
fn call_maps_replace_client_defaults() {
    let c = client_with_defaults();
    let p = c
        .get(
            "https://example.com",
            Some(pairs(&[("B", "2")])),
            Some(pairs(&[("B", "2")])),
            None,
            None,
            None,
        )
        .unwrap();
    assert_eq!(p.query.unwrap(), pairs(&[("B", "2")]));
    assert_eq!(p.headers.unwrap(), pairs(&[("B", "2")]));
}

#[test]
fn client_defaults_apply_when_call_gives_none() {
    let c = client_with_defaults();
    let p = c.get("https://example.com", None, None, None, None, None).unwrap();
    assert_eq!(p.query.unwrap(), pairs(&[("A", "1")]));
    assert_eq!(p.headers.unwrap(), pairs(&[("A", "1")]));
}

#[test]
fn call_rejects_both_auth_overrides() {
    let c = Client::new(ClientOptions::new()).unwrap();
    let r = c.get(
        "https://example.com",
        None,
        None,
        Some(BasicAuth::new("u".to_string(), Some("p".to_string()))),
        Some("token".to_string()),
        None,
    );
    assert!(matches!(r, Err(ClientError::Validation(_))));
}

#[test]
fn call_bearer_conflicts_with_client_basic() {
    let mut o = ClientOptions::new();
    o.auth = Some(BasicAuth::new("u".to_string(), None));
    let c = Client::new(o).unwrap();
    let r = c.head("https://example.com", None, None, None, Some("token".to_string()), None);
    assert!(matches!(r, Err(ClientError::Validation(_))));
}

#[test]
fn call_auth_replaces_client_auth() {
    let mut o = ClientOptions::new();
    o.auth = Some(BasicAuth::new("client".to_string(), None));
    let c = Client::new(o).unwrap();
    let p = c
        .options(
            "https://example.com",
            None,
            None,
            Some(BasicAuth::new("call".to_string(), Some("pw".to_string()))),
            None,
            Some(1500),
        )
        .unwrap();
    match p.auth {
        Some(Auth::Basic(b)) => {
            assert_eq!(b.username, "call");
            assert_eq!(b.password.as_deref(), Some("pw"));
        }
        other => panic!("unexpected auth {:?}", other),
    }
    assert_eq!(p.timeout_ms, Some(1500));
    let p = c.get("https://example.com", None, None, None, None, None).unwrap();
    match p.auth {
        Some(Auth::Basic(b)) => assert_eq!(b.username, "client"),
        other => panic!("unexpected auth {:?}", other),
    }
}

#[test]
fn bearer_default_is_used() {
    let mut o = ClientOptions::new();
    o.auth_bearer = Some("secret".to_string());
    let c = Client::new(o).unwrap();
    let p = c.delete("https://example.com", None, None, None, None, None).unwrap();
    match p.auth {
        Some(Auth::Bearer(t)) => assert_eq!(t, "secret"),
        other => panic!("unexpected auth {:?}", other),
    }
}

#[test]
fn call_rejects_bad_header() {
    let c = Client::new(ClientOptions::new()).unwrap();
    let r = c.get("https://example.com", None, Some(pairs(&[("X", "a\u{7f}b")])), None, None, None);
    assert!(matches!(r, Err(ClientError::Validation(_))));
}

#[test]
fn body_ignored_for_methods_without_body() {
    let c = Client::new(ClientOptions::new()).unwrap();
    let p = c
        .request(
            "GET",
            "https://example.com",
            None,
            None,
            Some(vec![1, 2, 3]),
            Some(vec![("k".to_string(), vec!["v".to_string()])]),
            None,
            None,
            None,
            None,
            None,
        )
        .unwrap();
    assert!(p.body.is_none());
    assert!(p.content_type.is_none());
}

#[test]
fn raw_content_passes_through() {
    let c = Client::new(ClientOptions::new()).unwrap();
    let p = c
        .post("https://example.com", None, None, Some(vec![0, 255, 7]), None, None, None, None, None, None)
        .unwrap();
    match p.body {
        Some(RequestBody::Raw(b)) => assert_eq!(b, vec![0, 255, 7]),
        other => panic!("unexpected body {:?}", other),
    }
    assert!(p.content_type.is_none());
}

#[test]
fn form_body_for_repeated_field() {
    let c = Client::new(ClientOptions::new()).unwrap();
    let data = vec![("k".to_string(), vec!["v1".to_string(), "v2".to_string()])];
    let p = c
        .put("https://example.com", None, None, None, Some(data), None, None, None, None, None)
        .unwrap();
    match p.body {
        Some(RequestBody::Form(t)) => assert_eq!(t, "k=v1&k=v2"),
        other => panic!("unexpected body {:?}", other),
    }
    assert_eq!(p.content_type, Some(ContentType::FormUrlEncoded));
    assert_eq!(ContentType::FormUrlEncoded.as_str(), "application/x-www-form-urlencoded");
}

#[test]
fn json_body_text() {
    let c = Client::new(ClientOptions::new()).unwrap();
    let json = JsonValue::Object(vec![("a".to_string(), JsonValue::Int(1))]);
    let p = c
        .patch("https://example.com", None, None, None, None, Some(json), None, None, None, None)
        .unwrap();
    match p.body {
        Some(RequestBody::Json(t)) => assert_eq!(t, "{\"a\": 1}"),
        other => panic!("unexpected body {:?}", other),
    }
    assert_eq!(p.content_type, Some(ContentType::Json));
    assert_eq!(ContentType::Json.as_str(), "application/json");
}

#[test]
fn later_body_variants_replace_earlier_ones() {
    let c = Client::new(ClientOptions::new()).unwrap();
    let data = vec![("k".to_string(), vec!["v".to_string()])];
    let p = c
        .post("https://example.com", None, None, Some(vec![1]), Some(data), None, None, None, None, None)
        .unwrap();
    match p.body {
        Some(RequestBody::Form(t)) => assert_eq!(t, "k=v"),
        other => panic!("unexpected body {:?}", other),
    }
    let files = pairs(&[("f", "/tmp/a.txt")]);
    let p = c
        .post(
            "https://example.com",
            None,
            None,
            Some(vec![1]),
            None,
            Some(JsonValue::Null),
            Some(files.clone()),
            None,
            None,
            None,
        )
        .unwrap();
    match p.body {
        Some(RequestBody::Files(f)) => assert_eq!(f, files),
        other => panic!("unexpected body {:?}", other),
    }
    assert_eq!(p.content_type, Some(ContentType::Multipart));
}

#[test]
fn resolve_auth_prefers_call_values() {
    let r = resolve_auth(None, Some("t".to_string()), &None, &None).unwrap();
    assert!(matches!(r, Some(Auth::Bearer(ref t)) if t == "t"));
    let r = resolve_auth(None, None, &None, &None).unwrap();
    assert!(r.is_none());
    let r = resolve_auth(None, None, &Some(BasicAuth::new("d".to_string(), None)), &Some("t".to_string()));
    assert!(matches!(r, Err(ClientError::Validation(_))));
}
