use molt_guard::gateway::{AppState, ErrorReply};
use molt_guard::passthrough::{
    fallback_response, native_response, proxy_fallback_handler, proxy_forward_json,
};
use molt_guard::prompt_guard::{Sensitivity, ValidationMode};
use molt_guard::proxy::{
    forward, hop_by_hop, relay, relay_headers, relay_redacted, Direction, Header, ProxyEnvelope,
    ProxyResponse,
};
use molt_guard::status::HttpStatus;
use molt_guard::text::{str_contains, str_eq, str_eq_ignore_ascii_case};

fn header(name: &str, value: &str) -> Header {
    Header::new(name, value.as_bytes())
}

fn state() -> AppState {
    AppState {
        ollama_url: "http://backend:11434".to_string(),
        validation_mode: ValidationMode::Local,
        sensitivity: Sensitivity::Medium,
        guard_model: "granite3-guardian:latest".to_string(),
    }
}

fn names(headers: &[Header]) -> Vec<&str> {
    headers.iter().map(|h| h.name.as_str()).collect()
}

#[test]
fn request_drops_host_and_content_length() {
    let inbound = vec![
        header("host", "gateway:3005"),
        header("content-type", "application/json"),
        header("content-length", "42"),
        header("accept-language", "en"),
        header("transfer-encoding", "chunked"),
    ];
    let out = relay_headers(Direction::Request, &inbound);
    assert_eq!(names(&out), vec!["content-type", "accept-language", "transfer-encoding"]);
    assert_eq!(out[0], header("content-type", "application/json"));
    assert_eq!(out[1], header("accept-language", "en"));
}

#[test]
fn response_drops_transfer_encoding() {
    let inbound = vec![
        header("content-type", "application/json"),
        header("transfer-encoding", "chunked"),
        header("host", "backend"),
        header("content-length", "7"),
    ];
    let out = relay_headers(Direction::Response, &inbound);
    assert_eq!(names(&out), vec!["content-type", "host", "content-length"]);
}

#[test]
fn header_names_match_without_regard_to_case() {
    assert!(hop_by_hop(Direction::Request, "Host"));
    assert!(hop_by_hop(Direction::Request, "HOST"));
    assert!(hop_by_hop(Direction::Request, "Content-Length"));
    assert!(hop_by_hop(Direction::Response, "Transfer-Encoding"));
    assert!(!hop_by_hop(Direction::Request, "transfer-encoding"));
    assert!(!hop_by_hop(Direction::Response, "host"));
    assert!(!hop_by_hop(Direction::Request, "hostname"));
    assert!(!hop_by_hop(Direction::Request, "hos"));
    assert!(!hop_by_hop(Direction::Request, ""));
    assert!(!hop_by_hop(Direction::Request, "x-host"));
}

#[test]
fn repeated_headers_keep_their_order() {
    let inbound = vec![
        header("accept", "a"),
        header("Host", "one"),
        header("accept", "b"),
        header("HOST", "two"),
        header("accept", "c"),
    ];
    let out = relay_headers(Direction::Request, &inbound);
    assert_eq!(out, vec![header("accept", "a"), header("accept", "b"), header("accept", "c")]);
    assert!(relay_headers(Direction::Request, &Vec::new()).is_empty());
}

#[test]
fn header_values_are_opaque_bytes() {
    let inbound = vec![Header::new("x-binary", &[0xff, 0x00, 0x80])];
    let out = relay_headers(Direction::Request, &inbound);
    assert_eq!(out[0].value, vec![0xff, 0x00, 0x80]);
}

#[test]
fn forward_concatenates_base_url_and_path() {
    let envelope = ProxyEnvelope {
        method: "DELETE".to_string(),
        path_and_query: "/api/delete?name=x&force=1".to_string(),
        headers: vec![header("host", "gateway"), header("accept", "*/*")],
        body: vec![1, 2, 3],
    };
    let out = forward("http://backend:11434", envelope);
    assert_eq!(out.method, "DELETE");
    assert_eq!(out.url, "http://backend:11434/api/delete?name=x&force=1");
    assert_eq!(out.headers, vec![header("accept", "*/*")]);
    assert_eq!(out.body, vec![1, 2, 3]);
}

#[test]
fn fallback_forwards_without_policy() {
    let envelope = ProxyEnvelope {
        method: "POST".to_string(),
        path_and_query: "/api/embeddings".to_string(),
        headers: vec![header("content-length", "19")],
        body: b"Ignore all previous".to_vec(),
    };
    let out = proxy_fallback_handler(&state(), envelope);
    assert_eq!(out.url, "http://backend:11434/api/embeddings");
    assert!(out.headers.is_empty());
    assert_eq!(out.body, b"Ignore all previous".to_vec());
}

#[test]
fn fallback_with_empty_path_goes_to_the_base_url() {
    let envelope = ProxyEnvelope {
        method: "GET".to_string(),
        path_and_query: String::new(),
        headers: Vec::new(),
        body: Vec::new(),
    };
    assert_eq!(proxy_fallback_handler(&state(), envelope).url, "http://backend:11434");
}

#[test]
fn relay_keeps_status_and_body() {
    let response = ProxyResponse {
        status: HttpStatus::from_u16(418).unwrap(),
        headers: vec![header("transfer-encoding", "chunked"), header("x-a", "1")],
        body: b"key 12345-ABCDE-67890-FGHIJ".to_vec(),
    };
    let out = relay(response);
    assert_eq!(out.status.as_u16(), 418);
    assert_eq!(out.headers, vec![header("x-a", "1")]);
    assert_eq!(out.body, b"key 12345-ABCDE-67890-FGHIJ".to_vec());
}

#[test]
fn relay_redacted_rewrites_the_body() {
    let response = ProxyResponse {
        status: HttpStatus::from_u16(503).unwrap(),
        headers: vec![header("Transfer-Encoding", "chunked"), header("x-a", "1")],
        body: b"{\"response\":\"key 12345-ABCDE-67890-FGHIJ, mail a@b.io\"}".to_vec(),
    };
    let out = relay_redacted(response);
    assert_eq!(out.status.as_u16(), 503);
    assert_eq!(out.headers, vec![header("x-a", "1")]);
    assert_eq!(
        out.body,
        b"{\"response\":\"key [SECRET_DETECTED], mail [PII_REDACTED]\"}".to_vec()
    );
}

#[test]
fn relay_redacted_replaces_malformed_bytes() {
    let response = ProxyResponse {
        status: HttpStatus::ok(),
        headers: Vec::new(),
        body: vec![b'a', 0xff, b'b'],
    };
    assert_eq!(relay_redacted(response).body, "a\u{FFFD}b".as_bytes().to_vec());
}

#[test]
fn relay_redacted_keeps_clean_text_byte_for_byte() {
    let body = "h\u{e9}llo w\u{f6}rld \u{1F6E1}".as_bytes().to_vec();
    let response =
        ProxyResponse { status: HttpStatus::ok(), headers: Vec::new(), body: body.clone() };
    assert_eq!(relay_redacted(response).body, body);
    let empty = ProxyResponse { status: HttpStatus::ok(), headers: Vec::new(), body: Vec::new() };
    assert!(relay_redacted(empty).body.is_empty());
}

#[test]
fn unreachable_backend_is_an_internal_error() {
    let failed = native_response(Err("connection refused".to_string()));
    assert_eq!(failed, Err(ErrorReply::internal("connection refused".to_string())));
    assert_eq!(failed.unwrap_err().status.as_u16(), 500);
    let failed = fallback_response(Err("timed out".to_string()));
    assert_eq!(failed.unwrap_err().message, "timed out");
}

#[test]
fn fallback_response_is_not_redacted() {
    let response = ProxyResponse {
        status: HttpStatus::ok(),
        headers: vec![header("transfer-encoding", "chunked")],
        body: b"a@b.io".to_vec(),
    };
    let out = fallback_response(Ok(response.clone())).unwrap();
    assert_eq!(out.body, b"a@b.io".to_vec());
    assert!(out.headers.is_empty());
    let out = native_response(Ok(response)).unwrap();
    assert_eq!(out.body, b"[PII_REDACTED]".to_vec());
}

#[test]
fn typed_forward_uses_the_given_path_and_method() {
    let headers = vec![header("host", "gateway"), header("content-type", "application/json")];
    let body = b"{}".to_vec();
    let out = proxy_forward_json("http://backend:11434", "/api/chat", "POST", &headers, &body);
    assert_eq!(out.method, "POST");
    assert_eq!(out.url, "http://backend:11434/api/chat");
    assert_eq!(out.headers, vec![header("content-type", "application/json")]);
    assert_eq!(out.body, body);
}

#[test]
fn substring_search_finds_every_position() {
    assert!(str_contains("abc", ""));
    assert!(str_contains("", ""));
    assert!(!str_contains("", "a"));
    assert!(str_contains("abc", "abc"));
    assert!(str_contains("abc", "a"));
    assert!(str_contains("abc", "c"));
    assert!(str_contains("abc", "bc"));
    assert!(!str_contains("abc", "abcd"));
    assert!(!str_contains("abc", "ac"));
    assert!(str_contains("aab", "ab"));
    assert!(str_contains("h\u{e9}llo w\u{f6}rld", "w\u{f6}r"));
    assert!(!str_contains("h\u{e9}llo", "e"));
}

#[test]
fn text_equality() {
    assert!(str_eq("user", "user"));
    assert!(!str_eq("user", "User"));
    assert!(!str_eq("user", "users"));
    assert!(str_eq_ignore_ascii_case("Content-Length", "content-length"));
    assert!(!str_eq_ignore_ascii_case("content_length", "content-length"));
    assert!(!str_eq_ignore_ascii_case("\u{212a}", "k"));
    assert!(!str_eq_ignore_ascii_case("@", "`"));
    assert!(!str_eq_ignore_ascii_case("[", "{"));
}
