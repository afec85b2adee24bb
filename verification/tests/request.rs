use etcd_auth::{build_url, AuthError, LogicalRequest, Method, TransportError};

#[test]
fn url_gets_a_slash_where_the_endpoint_has_none() {
    assert_eq!(build_url("http://localhost:2379", "/enable"), "http://localhost:2379/v2/auth/enable");
}

#[test]
fn url_keeps_the_slash_of_the_endpoint() {
    assert_eq!(build_url("http://localhost:2379/", "/enable"), "http://localhost:2379/v2/auth/enable");
}

#[test]
fn url_has_one_slash_however_many_the_endpoint_ends_in() {
    assert_eq!(build_url("http://localhost:2379//", "/enable"), "http://localhost:2379/v2/auth/enable");
    assert_eq!(build_url("http://h/a///", "/enable"), "http://h/a/v2/auth/enable");
    assert_eq!(build_url("///", "/enable"), "/v2/auth/enable");
    assert_eq!(build_url("/", ""), "/v2/auth");
}

#[test]
fn url_of_an_endpoint_with_a_path() {
    assert_eq!(build_url("https://etcd.example/base", "/users/root"), "https://etcd.example/base/v2/auth/users/root");
    assert_eq!(build_url("https://etcd.example/base/", ""), "https://etcd.example/base/v2/auth");
}

#[test]
fn url_of_an_empty_endpoint() {
    assert_eq!(build_url("", "/enable"), "/v2/auth/enable");
}

#[test]
fn url_of_an_endpoint_that_is_not_ascii() {
    assert_eq!(build_url("http://bücher.example", "/enable"), "http://bücher.example/v2/auth/enable");
    assert_eq!(build_url("http://h/ü", "/enable"), "http://h/ü/v2/auth/enable");
}

#[test]
fn logical_requests_of_the_three_calls() {
    let enable = LogicalRequest::enable();
    assert_eq!(enable.method, Method::Put);
    assert_eq!(enable.path, "/enable");
    assert_eq!(enable.body, Some(String::new()));
    let disable = LogicalRequest::disable();
    assert_eq!(disable.method, Method::Delete);
    assert_eq!(disable.path, "/enable");
    assert_eq!(disable.body, None);
    let status = LogicalRequest::status();
    assert_eq!(status.method, Method::Get);
    assert_eq!(status.path, "/enable");
    assert_eq!(status.body, None);
}

#[test]
fn request_at_a_member() {
    let request = LogicalRequest::enable().at("http://127.0.0.1:2379").unwrap();
    assert_eq!(request.method, Method::Put);
    assert_eq!(request.url, "http://127.0.0.1:2379/v2/auth/enable");
    assert_eq!(request.body, Some(String::new()));
    let request = LogicalRequest::disable().at("http://127.0.0.1:2379/").unwrap();
    assert_eq!(request.method, Method::Delete);
    assert_eq!(request.url, "http://127.0.0.1:2379/v2/auth/enable");
    assert_eq!(request.body, None);
}

#[test]
fn request_at_a_member_without_scheme_is_refused() {
    let refused = LogicalRequest::status().at("localhost:2379");
    assert!(matches!(refused, Err(AuthError::Transport(TransportError::InvalidUri(_)))));
}

#[test]
fn request_at_a_member_without_authority_is_refused() {
    let refused = LogicalRequest::status().at("http://?");
    assert!(matches!(refused, Err(AuthError::Transport(TransportError::InvalidUri(_)))));
}

#[test]
fn request_is_refused_exactly_where_hyper_refuses_the_url() {
    for endpoint in [
        "http://a", "http://a/", "http://a//", "a", "*", "", "/", "http://", "http://[::1",
        "http://[::1]:2379", "a?b",
    ] {
        let url = build_url(endpoint, "/enable");
        let parsed = url.parse::<hyper::Uri>();
        let request = LogicalRequest::enable().at(endpoint);
        assert_eq!(parsed.is_ok(), request.is_ok(), "{}", endpoint);
        if let Ok(request) = request {
            assert_eq!(request.url, url);
        }
    }
}

#[test]
fn addressed_takes_the_refusal_as_given() {
    let refusal = "".parse::<hyper::Uri>().unwrap_err();
    let logical = LogicalRequest::disable();
    let failed = logical.addressed("http://a/v2/auth/enable".to_owned(), Some(refusal));
    assert!(matches!(failed, Err(AuthError::Transport(TransportError::InvalidUri(_)))));
    let request = logical.addressed("http://a/v2/auth/enable".to_owned(), None).unwrap();
    assert_eq!(request.url, "http://a/v2/auth/enable");
    assert_eq!(request.method, Method::Delete);
    assert_eq!(request.body, None);
}
