use xdr::message::{Header, Request, RequestType};
use xdr::proxy::{classify_request, resolve_parsed, resolve_upstream_url, upstream_target_of};
use xdr::upstream::UpstreamUrl;

fn relative(path: &str, query: Option<&str>, headers: Vec<Header>) -> Request {
    let uri = match query {
        Some(q) => format!("{}?{}", path, q),
        None => path.to_string(),
    };
    Request {
        method: "GET".to_string(),
        uri,
        path: path.to_string(),
        query: query.map(|q| q.to_string()),
        absolute: false,
        headers,
    }
}

fn absolute(uri: &str) -> Request {
    Request {
        method: "GET".to_string(),
        uri: uri.to_string(),
        path: "/".to_string(),
        query: None,
        absolute: true,
        headers: Vec::new(),
    }
}

fn url_of(host: Option<&str>) -> UpstreamUrl {
    UpstreamUrl { text: "https://x/".to_string(), host: host.map(|h| h.to_string()) }
}

#[test]
fn relative_target_is_built_from_the_host_header() {
    let req = relative("/paid/data", None, vec![Header::new("x-upstream-host", "example.test")]);
    assert_eq!(upstream_target_of(&req), Some("https://example.test/paid/data".to_string()));
    let url = resolve_upstream_url(&req).unwrap();
    assert_eq!(url.text, "https://example.test/paid/data");
    assert_eq!(url.host, Some("example.test".to_string()));
}

#[test]
fn query_follows_a_question_mark() {
    let req = relative("/v1/chat", Some("a=1&b=2"), vec![Header::new("x-upstream-host", "api.openai.com")]);
    assert_eq!(upstream_target_of(&req), Some("https://api.openai.com/v1/chat?a=1&b=2".to_string()));
    let url = resolve_upstream_url(&req).unwrap();
    assert_eq!(url.text, "https://api.openai.com/v1/chat?a=1&b=2");
    let req = relative("/v1", Some(""), vec![Header::new("x-upstream-host", "h.test")]);
    assert_eq!(upstream_target_of(&req), Some("https://h.test/v1?".to_string()));
}

#[test]
fn absolute_target_is_used_as_it_is() {
    let req = absolute("http://example.test:8080/a/b?c=d");
    assert_eq!(upstream_target_of(&req), Some("http://example.test:8080/a/b?c=d".to_string()));
    let url = resolve_upstream_url(&req).unwrap();
    assert_eq!(url.text, "http://example.test:8080/a/b?c=d");
    assert_eq!(url.host, Some("example.test".to_string()));
}

#[test]
fn absolute_target_wins_over_the_host_header() {
    let mut req = absolute("http://one.test/");
    req.headers.push(Header::new("x-upstream-host", "two.test"));
    assert_eq!(resolve_upstream_url(&req).unwrap().host, Some("one.test".to_string()));
}

#[test]
fn the_parser_normalizes() {
    let req = absolute("HTTP://Example.TEST:80/a/../b");
    let url = resolve_upstream_url(&req).unwrap();
    assert_eq!(url.text, "http://example.test/b");
    assert_eq!(url.host, Some("example.test".to_string()));
    let req = relative("/x", None, vec![Header::new("x-upstream-host", "EXAMPLE.test:443")]);
    let url = resolve_upstream_url(&req).unwrap();
    assert_eq!(url.text, "https://example.test/x");
}

#[test]
fn missing_host_header_is_an_error() {
    let req = relative("/data", None, vec![Header::new("x-agent-id", "a1")]);
    assert_eq!(upstream_target_of(&req), None);
    assert_eq!(resolve_upstream_url(&req).unwrap_err(), "Missing X-Upstream-Host header or Absolute URL");
}

#[test]
fn host_header_that_is_no_text_counts_as_missing() {
    let req = relative("/data", None, vec![Header { name: "x-upstream-host".to_string(), value: vec![0xff] }]);
    assert_eq!(resolve_upstream_url(&req).unwrap_err(), "Missing X-Upstream-Host header or Absolute URL");
}

#[test]
fn unparsable_targets_are_errors() {
    let req = relative("/data", None, vec![Header::new("x-upstream-host", "exa mple.test")]);
    assert_eq!(resolve_upstream_url(&req).unwrap_err(), "Invalid Constructed URL");
    let req = relative("/data", None, vec![Header::new("x-upstream-host", "exa<mple")]);
    assert_eq!(resolve_upstream_url(&req).unwrap_err(), "Invalid Constructed URL");
    let req = absolute("http://[::1/");
    assert_eq!(resolve_upstream_url(&req).unwrap_err(), "Invalid Absolute URL");
}

#[test]
fn empty_host_header_lets_the_path_name_the_host() {
    let req = relative("/data", None, vec![Header::new("x-upstream-host", "")]);
    let url = resolve_upstream_url(&req).unwrap();
    assert_eq!(url.text, "https://data/");
    assert_eq!(url.host, Some("data".to_string()));
}

#[test]
fn resolve_parsed_maps_the_parser_result() {
    let rel = relative("/", None, Vec::new());
    let abs = absolute("http://x/");
    assert_eq!(resolve_parsed(&rel, None).unwrap_err(), "Invalid Constructed URL");
    assert_eq!(resolve_parsed(&abs, None).unwrap_err(), "Invalid Absolute URL");
    let url = resolve_parsed(&rel, Some(url_of(Some("h")))).unwrap();
    assert_eq!(url.text, "https://x/");
    assert_eq!(url.host, Some("h".to_string()));
}

#[test]
fn hosts_are_classified_by_their_words() {
    assert_eq!(classify_request(&url_of(Some("api.openai.com"))), RequestType::AiInference);
    assert_eq!(classify_request(&url_of(Some("api.anthropic.com"))), RequestType::AiInference);
    assert_eq!(classify_request(&url_of(Some("evm.cronos.org"))), RequestType::Rpc);
    assert_eq!(classify_request(&url_of(Some("my-rpc.example"))), RequestType::Rpc);
    assert_eq!(classify_request(&url_of(Some("rpc.anthropic.test"))), RequestType::AiInference);
    assert_eq!(classify_request(&url_of(Some("example.test"))), RequestType::Unknown);
    assert_eq!(classify_request(&url_of(Some("openai.org"))), RequestType::Unknown);
    assert_eq!(classify_request(&url_of(None)), RequestType::Unknown);
}
