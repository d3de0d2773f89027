use media_shell::http::{
    check_download_status, plan_http_request, prepare_http_request, select_method, string_headers,
    HttpMethod,
};

#[test]
fn method_names_ignore_case() {
    let plan = prepare_http_request("GET", "https://example.com/a", None, None).unwrap();
    assert_eq!(plan.method, HttpMethod::Get);
    let plan = prepare_http_request("Post", "https://example.com/a", None, Some("x".to_string()))
        .unwrap();
    assert_eq!(plan.method, HttpMethod::Post);
    assert_eq!(plan.body, Some("x".to_string()));
    let plan = prepare_http_request("pUt", "https://example.com/a", None, None).unwrap();
    assert_eq!(plan.method, HttpMethod::Put);
    let plan = prepare_http_request("DELETE", "https://example.com/a", None, None).unwrap();
    assert_eq!(plan.method, HttpMethod::Delete);
}

#[test]
fn unsupported_method_is_refused() {
    let r = prepare_http_request("PATCH", "https://example.com/", None, None);
    assert_eq!(r.err(), Some("Unsupported HTTP method".to_string()));
    assert_eq!(select_method("head"), None);
    assert_eq!(select_method("GET"), None);
    assert_eq!(select_method("get"), Some(HttpMethod::Get));
}

#[test]
fn url_is_parsed_and_normalised() {
    let plan = prepare_http_request("get", "HTTPS://Example.COM", None, None).unwrap();
    assert_eq!(plan.url, "https://example.com/");
}

#[test]
fn bad_url_is_reported_before_the_method() {
    let r = prepare_http_request("PATCH", "not a url", None, None);
    assert_eq!(r.err(), Some("relative URL without a base".to_string()));
    let r = plan_http_request(Err("empty host".to_string()), "get", None, None);
    assert_eq!(r.err(), Some("empty host".to_string()));
}

#[test]
fn only_string_headers_are_sent() {
    let entries = vec![
        ("Accept".to_string(), Some("text/plain".to_string())),
        ("X-Count".to_string(), None),
        ("Referer".to_string(), Some("https://example.com".to_string())),
    ];
    let kept = string_headers(&entries);
    assert_eq!(
        kept,
        vec![
            ("Accept".to_string(), "text/plain".to_string()),
            ("Referer".to_string(), "https://example.com".to_string()),
        ]
    );
    let plan = plan_http_request(Ok("https://a.b/".to_string()), "get", Some(entries), None).unwrap();
    assert_eq!(plan.headers.len(), 2);
    let plan = plan_http_request(Ok("https://a.b/".to_string()), "get", None, None).unwrap();
    assert!(plan.headers.is_empty());
}

#[test]
fn download_status_is_judged() {
    assert_eq!(check_download_status(200, "200 OK"), Ok(()));
    assert_eq!(check_download_status(299, "299 <unknown status code>"), Ok(()));
    assert_eq!(
        check_download_status(404, "404 Not Found"),
        Err("HTTP error: 404 Not Found".to_string())
    );
    assert!(check_download_status(199, "199").is_err());
    assert!(check_download_status(300, "300 Multiple Choices").is_err());
}
