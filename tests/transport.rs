use secrets::envelope::Request;
use secrets::error::{Error, ErrorCode};
use secrets::http::{decimal, header_value, names_match, Header, HttpRequest, HttpResponse};
use secrets::transport::JsonTransport;

fn request_with(headers: Vec<(&str, &str)>, body: &[u8]) -> HttpRequest {
    HttpRequest {
        headers: headers.into_iter().map(|(n, v)| Header::new(n, v)).collect(),
        body: body.to_vec(),
    }
}

fn header<'a>(hs: &'a [Header], name: &str) -> Option<&'a str> {
    hs.iter().find(|h| h.name.eq_ignore_ascii_case(name)).map(|h| h.value.as_str())
}

#[test]
fn request_round_trip_with_token() {
    let t = JsonTransport::new();
    let req = Request::new("add_secret", Some("xyz".to_string()), b"{\"key\":\"k\"}".to_vec());
    let http = t.encode_request(req).unwrap();
    let back = t.decode_request(http.clone()).unwrap();
    assert_eq!(back.method, "add_secret");
    assert_eq!(back.token, Some("xyz".to_string()));
    assert_eq!(back.data, b"{\"key\":\"k\"}".to_vec());
}

#[test]
fn request_round_trip_without_token() {
    let t = JsonTransport::new();
    let http = t.encode_request(Request::new("status", None, b"null".to_vec())).unwrap();
    let back = t.decode_request(http).unwrap();
    assert_eq!(back.method, "status");
    assert_eq!(back.token, None);
    assert_eq!(back.data, b"null".to_vec());
}

#[test]
fn encoded_request_headers() {
    let t = JsonTransport::new();
    let http = t.encode_request(Request::new("status", Some("abc".to_string()), b"null".to_vec())).unwrap();
    let names: Vec<&str> = http.headers.iter().map(|h| h.name.as_str()).collect();
    assert_eq!(names, vec!["X-RPC-METHOD", "Authorization", "Content-Type", "Content-Length"]);
    assert_eq!(header(&http.headers, "x-rpc-method"), Some("status"));
    assert_eq!(header(&http.headers, "authorization"), Some("Bearer abc"));
    assert_eq!(header(&http.headers, "content-type"), Some("application/json"));
    assert_eq!(header(&http.headers, "content-length"), Some("4"));
    assert_eq!(http.body, b"null".to_vec());
}

#[test]
fn encode_request_rejects_unprintable_method() {
    let t = JsonTransport::new();
    let err = t.encode_request(Request::new("sta\ntus", None, vec![])).unwrap_err();
    assert_eq!(err.code, ErrorCode::InvalidParam);
}

#[test]
fn encode_request_rejects_unprintable_token() {
    let t = JsonTransport::new();
    let err = t.encode_request(Request::new("status", Some("tök".to_string()), vec![])).unwrap_err();
    assert_eq!(err.code, ErrorCode::InvalidParam);
}

#[test]
fn missing_method_header_is_rejected() {
    let t = JsonTransport::new();
    let err = t.decode_request(request_with(vec![("Content-Type", "application/json")], b"null")).unwrap_err();
    assert_eq!(err.code, ErrorCode::InvalidParam);
    assert_eq!(err.message, "Missing method header");
    assert_ne!(err.code, ErrorCode::NotImplemented);
}

#[test]
fn unreadable_method_header_is_rejected() {
    let t = JsonTransport::new();
    let err = t.decode_request(request_with(vec![("X-RPC-METHOD", "st\u{fffd}tus")], b"")).unwrap_err();
    assert_eq!(err.code, ErrorCode::InvalidParam);
    assert_eq!(err.message, "Invalid method header: failed to convert header to a str");
}

#[test]
fn bearer_token_is_read() {
    let t = JsonTransport::new();
    let req = t
        .decode_request(request_with(vec![("X-RPC-METHOD", "status"), ("Authorization", "Bearer xyz")], b"null"))
        .unwrap();
    assert_eq!(req.token, Some("xyz".to_string()));
}

#[test]
fn token_without_bearer_scheme_is_rejected() {
    let t = JsonTransport::new();
    let err = t
        .decode_request(request_with(vec![("X-RPC-METHOD", "status"), ("Authorization", "xyz")], b"null"))
        .unwrap_err();
    assert_eq!(err.code, ErrorCode::InvalidParam);
    assert_eq!(err.message, "Invalid auth header: xyz");
}

#[test]
fn unreadable_token_is_rejected() {
    let t = JsonTransport::new();
    let err = t
        .decode_request(request_with(vec![("X-RPC-METHOD", "status"), ("Authorization", "Bearer \u{7f}")], b""))
        .unwrap_err();
    assert_eq!(err.message, "Invalid auth header: failed to convert header to a str");
}

#[test]
fn absent_token_is_accepted() {
    let t = JsonTransport::new();
    let req = t.decode_request(request_with(vec![("X-RPC-METHOD", "status")], b"null")).unwrap();
    assert_eq!(req.method, "status");
    assert_eq!(req.token, None);
    assert_eq!(req.data, b"null".to_vec());
}

#[test]
fn header_names_ignore_ascii_case() {
    let t = JsonTransport::new();
    let req = t
        .decode_request(request_with(vec![("x-rpc-method", "login"), ("AUTHORIZATION", "Bearer t")], b""))
        .unwrap();
    assert_eq!(req.method, "login");
    assert_eq!(req.token, Some("t".to_string()));
    assert!(names_match("Content-Type", "content-type"));
    assert!(!names_match("Content-Type", "content-typ"));
}

#[test]
fn first_header_of_a_name_wins() {
    let hs = vec![Header::new("A", "1"), Header::new("a", "2")];
    assert_eq!(header_value(&hs, "a").map(|s| s.as_str()), Some("1"));
    assert_eq!(header_value(&hs, "b"), None);
}

#[test]
fn decimal_notation() {
    assert_eq!(decimal(0), "0");
    assert_eq!(decimal(7), "7");
    assert_eq!(decimal(10), "10");
    assert_eq!(decimal(1234), "1234");
    assert_eq!(decimal(usize::MAX), usize::MAX.to_string());
}

#[test]
fn ok_and_err_responses() {
    let t = JsonTransport::new();
    let ok = t.encode_ok(b"{}".to_vec());
    assert_eq!(ok.status, 200);
    assert_eq!(header(&ok.headers, "content-type"), Some("application/json"));
    assert_eq!(header(&ok.headers, "content-length"), Some("2"));
    let err = t.encode_err(b"\"bad\"".to_vec());
    assert_eq!(err.status, 400);
    assert_eq!(header(&err.headers, "content-length"), Some("5"));
    assert_eq!(err.body, b"\"bad\"".to_vec());
}

#[test]
fn response_round_trip() {
    let t = JsonTransport::new();
    let ok = t.encode_response(Ok(b"[1,2]".to_vec()));
    assert_eq!(t.decode_response(ok).unwrap(), Ok(b"[1,2]".to_vec()));
    let err = t.encode_response(Err(b"{\"message\":\"no\"}".to_vec()));
    assert_eq!(t.decode_response(err).unwrap(), Err(b"{\"message\":\"no\"}".to_vec()));
}

#[test]
fn response_status_classes() {
    let t = JsonTransport::new();
    let mk = |status: u16| HttpResponse { status, headers: vec![], body: b"x".to_vec() };
    assert_eq!(t.decode_response(mk(204)).unwrap(), Ok(b"x".to_vec()));
    assert_eq!(t.decode_response(mk(500)).unwrap(), Err(b"x".to_vec()));
    assert_eq!(t.decode_response(mk(404)).unwrap(), Err(b"x".to_vec()));
    assert_eq!(t.decode_response(mk(302)).unwrap_err().code, ErrorCode::InvalidParam);
    assert_eq!(t.decode_response(mk(101)).unwrap_err().code, ErrorCode::InvalidParam);
}

#[test]
fn error_response_carries_kind_and_status() {
    let t = JsonTransport::new();
    let res = t.encode_error(&Error::internal("boom"));
    assert_eq!(res.status, 500);
    assert_eq!(res.body, b"{\"code\":\"INTERNAL\",\"message\":\"boom\"}".to_vec());
    let res = t.encode_error(&Error::invalid_body("bad"));
    assert_eq!(res.status, 400);
    assert_eq!(header(&res.headers, "content-length"), Some(res.body.len().to_string().as_str()));
}
