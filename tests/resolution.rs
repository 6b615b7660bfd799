use request_runner::headers::validate_headers;
use request_runner::request::{
    classify_content_type, parse_method, ContentKind, Method, RequestDescriptor, RequestError,
    WireBody,
};
use request_runner::resolve::prepare_request;
use request_runner::url::{build_query_string, resolve_url, substitute_path_params};

fn pairs(items: &[(&str, &str)]) -> Vec<(String, String)> {
    items.iter().map(|(k, v)| (k.to_string(), v.to_string())).collect()
}

fn descriptor(method: &str, url: &str) -> RequestDescriptor {
    RequestDescriptor {
        url: url.to_string(),
        method: method.to_string(),
        body: None,
        headers: None,
        content_type: None,
        path_params: None,
        query_params: None,
        form_data: None,
    }
}

#[test]
fn path_parameter_is_substituted() {
    let mut d = descriptor("GET", "https://api.example.com/items/{id}");
    d.path_params = Some(pairs(&[("id", "42")]));
    let r = prepare_request(&d).unwrap();
    assert_eq!(r.url, "https://api.example.com/items/42");
    assert_eq!(r.command, "curl -X GET 'https://api.example.com/items/42'");
}

#[test]
fn query_parameters_are_appended_in_order() {
    let mut d = descriptor("GET", "https://api.example.com/items");
    d.query_params = Some(pairs(&[("a", "1"), ("b", "2")]));
    let r = prepare_request(&d).unwrap();
    assert!(r.url.ends_with("?a=1&b=2"));
    assert_eq!(r.url, "https://api.example.com/items?a=1&b=2");
}

#[test]
fn multipart_form_has_one_field_and_form_flag() {
    let mut d = descriptor("POST", "https://h/upload");
    d.content_type = Some("multipart/form-data".to_string());
    d.form_data = Some(pairs(&[("x", "y")]));
    d.body = Some("ignored".to_string());
    let r = prepare_request(&d).unwrap();
    assert!(r.command.contains(" -F 'x=y'"));
    assert!(!r.command.contains("ignored"));
    match r.body {
        WireBody::Form(fields) => assert_eq!(fields, pairs(&[("x", "y")])),
        other => panic!("expected a form, got {:?}", other),
    }
    assert_eq!(
        r.command,
        "curl -X POST 'https://h/upload' -H 'Content-Type: multipart/form-data' -F 'x=y'"
    );
}

#[test]
fn unknown_method_is_rejected() {
    for m in ["FETCH", "get", "", "CONNECT"] {
        let mut d = descriptor(m, "https://h/");
        d.headers = Some(pairs(&[("bad name", "v")]));
        d.content_type = Some("text/plain".to_string());
        assert!(matches!(prepare_request(&d), Err(RequestError::UnsupportedMethod)));
    }
}

#[test]
fn illegal_header_value_is_rejected_naming_key() {
    let mut d = descriptor("GET", "https://h/");
    d.headers = Some(pairs(&[("Accept", "text/html"), ("X-Bad", "a\nb")]));
    match prepare_request(&d) {
        Err(RequestError::InvalidHeader { key }) => assert_eq!(key, "X-Bad"),
        other => panic!("unexpected {:?}", other),
    }
}

#[test]
fn illegal_header_name_is_rejected_naming_key() {
    let mut d = descriptor("GET", "https://h/");
    d.headers = Some(pairs(&[("bad name", "v")]));
    match prepare_request(&d) {
        Err(RequestError::InvalidHeader { key }) => assert_eq!(key, "bad name"),
        other => panic!("unexpected {:?}", other),
    }
    assert!(validate_headers(&pairs(&[("", "v")])).is_err());
}

#[test]
fn unsupported_content_type_is_rejected() {
    let mut d = descriptor("POST", "https://h/");
    d.content_type = Some("text/plain".to_string());
    match prepare_request(&d) {
        Err(RequestError::UnsupportedContentType { value }) => assert_eq!(value, "text/plain"),
        other => panic!("unexpected {:?}", other),
    }
    assert_eq!(classify_content_type("Application/JSON"), None);
}

#[test]
fn header_names_are_lowercased_and_last_write_wins() {
    let (set, flags) =
        validate_headers(&pairs(&[("X-Token", "abc"), ("x-token", "def"), ("Accept", "*/*")]))
            .unwrap();
    assert_eq!(set, pairs(&[("x-token", "def"), ("accept", "*/*")]));
    assert_eq!(flags, " -H 'x-token: abc' -H 'x-token: def' -H 'accept: */*'");
}

#[test]
fn content_type_field_overrides_header() {
    let mut d = descriptor("POST", "https://h/api");
    d.headers = Some(pairs(&[("Content-Type", "text/plain"), ("X-A", "1")]));
    d.content_type = Some("application/json".to_string());
    d.body = Some("{\"k\":1}".to_string());
    let r = prepare_request(&d).unwrap();
    assert_eq!(r.headers, pairs(&[("content-type", "application/json"), ("x-a", "1")]));
    assert!(matches!(r.body, WireBody::Text(ref b) if b == "{\"k\":1}"));
    assert_eq!(
        r.command,
        "curl -X POST 'https://h/api' -H 'content-type: text/plain' -H 'x-a: 1' \
         -H 'Content-Type: application/json' -d '{\"k\":1}'"
    );
}

#[test]
fn urlencoded_body_is_sent_verbatim() {
    let mut d = descriptor("PUT", "https://h/f");
    d.content_type = Some("application/x-www-form-urlencoded".to_string());
    d.body = Some("a=1&b=two%20words".to_string());
    let r = prepare_request(&d).unwrap();
    assert_eq!(r.method, Method::Put);
    assert!(matches!(r.body, WireBody::Text(ref b) if b == "a=1&b=two%20words"));
    assert!(r.command.ends_with(" --data-urlencode 'a=1&b=two%20words'"));
}

#[test]
fn xml_without_body_sends_nothing() {
    let mut d = descriptor("DELETE", "https://h/x");
    d.content_type = Some("text/xml; charset=utf-8".to_string());
    let r = prepare_request(&d).unwrap();
    assert!(matches!(r.body, WireBody::Empty));
    assert_eq!(r.headers, pairs(&[("content-type", "text/xml; charset=utf-8")]));
    assert_eq!(r.command, "curl -X DELETE 'https://h/x' -H 'Content-Type: text/xml; charset=utf-8'");
}

#[test]
fn no_content_type_sends_no_body() {
    let mut d = descriptor("POST", "https://h/x");
    d.body = Some("data".to_string());
    let r = prepare_request(&d).unwrap();
    assert!(matches!(r.body, WireBody::Empty));
    assert!(r.headers.is_empty());
}

#[test]
fn empty_query_mapping_still_adds_question_mark() {
    let r = resolve_url("https://h/p", &None, &Some(Vec::new()));
    assert_eq!(r, "https://h/p?");
    assert_eq!(resolve_url("https://h/p", &None, &None), "https://h/p");
}

#[test]
fn unresolved_placeholder_is_left_verbatim() {
    let r = substitute_path_params("https://h/{a}/{b}/{a}", &pairs(&[("a", "1")]));
    assert_eq!(r, "https://h/1/{b}/1");
}

#[test]
fn inserted_values_are_not_substituted_again() {
    let r = substitute_path_params("{a}", &pairs(&[("a", "{b}"), ("b", "X")]));
    assert_eq!(r, "{b}");
    let r = substitute_path_params("/{b}/{a}", &pairs(&[("a", "{b}"), ("b", "X")]));
    assert_eq!(r, "/X/{b}");
}

#[test]
fn repeated_placeholders_and_unicode_are_substituted() {
    let r = substitute_path_params("héllo {n} wörld {n}{n}", &pairs(&[("n", "ñ")]));
    assert_eq!(r, "héllo ñ wörld ññ");
    assert_eq!(substitute_path_params("", &pairs(&[("n", "x")])), "");
    assert_eq!(substitute_path_params("/{id", &pairs(&[("id", "1")])), "/{id");
}

#[test]
fn duplicate_path_key_uses_first_value() {
    let r = substitute_path_params("/{id}", &pairs(&[("id", "1"), ("id", "2")]));
    assert_eq!(r, "/1");
}

#[test]
fn query_string_formula() {
    assert_eq!(build_query_string(&Vec::new()), "");
    assert_eq!(build_query_string(&pairs(&[("q", "a b")])), "q=a b");
    assert_eq!(build_query_string(&pairs(&[("a", "1"), ("b", "2"), ("c", "")])), "a=1&b=2&c=");
}

#[test]
fn every_method_name_is_read() {
    assert_eq!(parse_method("GET"), Some(Method::Get));
    assert_eq!(parse_method("POST"), Some(Method::Post));
    assert_eq!(parse_method("PUT"), Some(Method::Put));
    assert_eq!(parse_method("DELETE"), Some(Method::Delete));
    assert_eq!(parse_method("PATCH"), Some(Method::Patch));
    assert_eq!(parse_method("OPTIONS"), Some(Method::Options));
    assert_eq!(parse_method("HEAD"), Some(Method::Head));
    assert_eq!(parse_method("head"), None);
    assert_eq!(classify_content_type("application/xml"), Some(ContentKind::JsonOrXml));
    assert_eq!(classify_content_type("multipart/form-data"), Some(ContentKind::Multipart));
}
