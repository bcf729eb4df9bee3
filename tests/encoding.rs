use impersonate_client::{
    attach_files, charset_of_content_type, check_headers, encode_form,
    eq_ignore_ascii_case, flatten_form_fields, trim_text, flatten_last_wins, response_charset, ClientError,
    JsonValue, Response,
};

fn pairs(items: &[(&str, &str)]) -> Vec<(String, String)> {
    items.iter().map(|(a, b)| (a.to_string(), b.to_string())).collect()
}

#[test]
fn form_repeated_key() {
    let fields = vec![("k".to_string(), vec!["v1".to_string(), "v2".to_string()])];
    assert_eq!(encode_form(&fields), "k=v1&k=v2");
}

#[test]
fn form_escapes_reserved_bytes() {
    let fields = vec![
        ("a b".to_string(), vec!["x&y=z".to_string()]),
        ("é".to_string(), vec!["*-._~".to_string()]),
    ];
    assert_eq!(encode_form(&fields), "a+b=x%26y%3Dz&%C3%A9=*-._%7E");
}

#[test]
fn form_empty_and_empty_values() {
    assert_eq!(encode_form(&Vec::new()), "");
    let fields = vec![("k".to_string(), Vec::new()), ("e".to_string(), vec![String::new()])];
    assert_eq!(flatten_form_fields(&fields), pairs(&[("e", "")]));
    assert_eq!(encode_form(&fields), "e=");
    let two = vec![("x".to_string(), vec!["1".to_string()]), ("y".to_string(), vec!["2".to_string()])];
    assert_eq!(encode_form(&two), "x=1&y=2");
}

#[test]
fn json_scalars() {
    assert_eq!(JsonValue::Null.to_json(), "null");
    assert_eq!(JsonValue::Bool(true).to_json(), "true");
    assert_eq!(JsonValue::Bool(false).to_json(), "false");
    assert_eq!(JsonValue::Int(0).to_json(), "0");
    assert_eq!(JsonValue::Int(-42).to_json(), "-42");
    assert_eq!(JsonValue::Int(i64::MIN).to_json(), "-9223372036854775808");
    assert_eq!(JsonValue::Int(i64::MAX).to_json(), "9223372036854775807");
}

#[test]
fn json_object_single_member() {
    let v = JsonValue::Object(vec![("a".to_string(), JsonValue::Int(1))]);
    assert_eq!(v.to_json(), "{\"a\": 1}");
}

#[test]
fn json_nested_and_escaped() {
    let v = JsonValue::Object(vec![
        (
            "list".to_string(),
            JsonValue::Array(vec![JsonValue::Int(1), JsonValue::Str("q\"\\\n\u{1}".to_string()), JsonValue::Array(vec![])]),
        ),
        ("o".to_string(), JsonValue::Object(vec![])),
    ]);
    assert_eq!(v.to_json(), "{\"list\": [1, \"q\\\"\\\\\\n\\u0001\", []], \"o\": {}}");
}

#[test]
fn charset_from_content_type() {
    assert_eq!(response_charset(Some("text/html; charset=ISO-8859-1")), "ISO-8859-1");
    assert_eq!(response_charset(Some("text/html")), "UTF-8");
    assert_eq!(response_charset(None), "UTF-8");
}

#[test]
fn charset_key_any_case_and_trimmed() {
    assert_eq!(charset_of_content_type("text/plain ;  CharSet = utf-16 ").as_deref(), Some("utf-16"));
    assert_eq!(charset_of_content_type("a=b; charset=x; charset=y").as_deref(), Some("x"));
    assert_eq!(charset_of_content_type("text/html; charsets=x"), None);
    assert_eq!(charset_of_content_type(""), None);
    assert_eq!(charset_of_content_type("charset=a=b").as_deref(), Some("a=b"));
}

#[test]
fn ascii_case_comparison() {
    assert!(eq_ignore_ascii_case("CharSet", "charset"));
    assert!(!eq_ignore_ascii_case("charset", "charsets"));
    assert!(!eq_ignore_ascii_case("É", "é"));
}

#[test]
fn header_checks() {
    assert!(check_headers(&pairs(&[("Content-Type", "text/html"), ("x-a", "\t v")])));
    assert!(!check_headers(&pairs(&[("", "v")])));
    assert!(!check_headers(&pairs(&[("a:b", "v")])));
    assert!(!check_headers(&pairs(&[("a", "x\ry")])));
    assert!(check_headers(&Vec::new()));
}

#[test]
fn last_value_wins() {
    let r = flatten_last_wins(pairs(&[("a", "1"), ("b", "2"), ("a", "3")]));
    assert_eq!(r, pairs(&[("a", "3"), ("b", "2")]));
    assert!(flatten_last_wins(Vec::new()).is_empty());
}

#[test]
fn missing_file_is_encoding_error() {
    let files = pairs(&[("up", "/no/such/file.bin")]);
    let reads = vec![Err("No such file or directory (os error 2)".to_string())];
    match attach_files(files, reads) {
        Err(ClientError::Encoding(m)) => {
            assert!(m.contains("/no/such/file.bin"));
            assert_eq!(m, "Error reading file /no/such/file.bin: No such file or directory (os error 2)");
        }
        other => panic!("unexpected {:?}", other),
    }
}

#[test]
fn files_attach_in_order() {
    let files = pairs(&[("a", "/x"), ("b", "/y")]);
    let reads = vec![Ok(vec![1u8]), Ok(vec![2u8, 3])];
    let parts = attach_files(files, reads).unwrap();
    assert_eq!(parts, vec![("a".to_string(), vec![1u8]), ("b".to_string(), vec![2u8, 3])]);
    let files = pairs(&[("a", "/x"), ("b", "/y"), ("c", "/z")]);
    let reads = vec![Ok(vec![1u8]), Err("denied".to_string()), Err("other".to_string())];
    match attach_files(files, reads) {
        Err(ClientError::Encoding(m)) => assert_eq!(m, "Error reading file /y: denied"),
        other => panic!("unexpected {:?}", other),
    }
}

#[test]
fn normalize_response() {
    let r = Response::normalize(
        302,
        "https://example.com/final".to_string(),
        pairs(&[("content-type", "text/html; charset=ISO-8859-1"), ("x", "1"), ("x", "2")]),
        pairs(&[("sid", "a"), ("sid", "b")]),
        Some("text/html; charset=ISO-8859-1"),
        vec![104, 105],
    );
    assert_eq!(r.status_code, 302);
    assert_eq!(r.url, "https://example.com/final");
    assert_eq!(r.headers, pairs(&[("content-type", "text/html; charset=ISO-8859-1"), ("x", "2")]));
    assert_eq!(r.cookies, pairs(&[("sid", "b")]));
    assert_eq!(r.encoding, "ISO-8859-1");
    assert_eq!(r.content, vec![104, 105]);
}

#[test]
fn header_name_bytes() {
    assert!(check_headers(&pairs(&[("X-Quote\"#|~^_`", "v"), ("UPPER", "v")])));
    assert!(!check_headers(&pairs(&[("a(b", "v")])));
    assert!(!check_headers(&pairs(&[("é", "v")])));
    let long = "a".repeat(65535);
    assert!(check_headers(&vec![(long.clone(), "v".to_string())]));
    let too_long = "a".repeat(65536);
    assert!(!check_headers(&vec![(too_long, "v".to_string())]));
}

#[test]
fn trim_removes_white_space_at_both_ends() {
    assert_eq!(trim_text("  a b \t\n"), "a b");
    assert_eq!(trim_text("\u{3000}x\u{a0}"), "x");
    assert_eq!(trim_text("   "), "");
    assert_eq!(trim_text(""), "");
    assert_eq!(trim_text("x"), "x");
}
