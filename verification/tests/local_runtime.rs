use oxmux::local_runtime::{
    find_header_end, finish_local_request, frame_local_request, next_body_step, next_header_step,
    parse_request_head, render_response, respond_to_local_request, BodyReadStep, HeaderReadStep,
};
use oxmux::{
    CoreError, LocalHealthRuntimeConfig, LocalHttpRequest, LocalHttpResponse, MinimalProxyErrorCode,
    MockProviderHarness, IpAddress, LOCAL_HEALTH_RESPONSE_BODY,
};

fn request(method: &str, path: &str, body: &[u8]) -> LocalHttpRequest {
    LocalHttpRequest { method: method.to_string(), path: path.to_string(), body: body.to_vec() }
}

#[test]
fn header_end_is_the_first_blank_line() {
    let bytes = b"GET /health HTTP/1.1\r\nHost: x\r\n\r\nbody\r\n\r\n";
    assert_eq!(find_header_end(bytes), Some(29));
    assert_eq!(find_header_end(b"GET / HTTP/1.1\r\n"), None);
    assert_eq!(next_header_step(bytes, false), HeaderReadStep::Complete(29));
    assert_eq!(next_header_step(b"GET", false), HeaderReadStep::Read(512));
    assert_eq!(next_header_step(b"GET", true), HeaderReadStep::Incomplete);
}

#[test]
fn request_head_parses_method_path_and_content_length() {
    let head = parse_request_head("POST /v1/chat/completions HTTP/1.1\r\nHost: x\r\nContent-Length: +12")
        .expect("valid head");
    assert_eq!(head.method, "POST");
    assert_eq!(head.path, "/v1/chat/completions");
    assert_eq!(head.content_length, 12);
    let plain = parse_request_head("GET /health HTTP/1.0").expect("valid head");
    assert_eq!(plain.content_length, 0);
}

#[test]
fn request_head_problems_are_structured() {
    let field_of = |text: &str| match parse_request_head(text) {
        Err(CoreError::MinimalProxyRequestValidation { field, code, .. }) => (field, code),
        other => panic!("unexpected {other:?}"),
    };
    assert_eq!(field_of(""), ("method", MinimalProxyErrorCode::UnsupportedRequestShape));
    assert_eq!(field_of("GET"), ("path", MinimalProxyErrorCode::UnsupportedRequestShape));
    assert_eq!(field_of("GET /"), ("version", MinimalProxyErrorCode::UnsupportedRequestShape));
    assert_eq!(field_of("GET / HTTP/2"), ("request_line", MinimalProxyErrorCode::UnsupportedRequestShape));
    assert_eq!(
        field_of("GET / HTTP/1.1\r\nContent-Length: 5\r\ncontent-length: 6"),
        ("content-length", MinimalProxyErrorCode::UnsupportedRequestShape)
    );
    assert_eq!(
        field_of("GET / HTTP/1.1\r\nContent-Length: five"),
        ("content-length", MinimalProxyErrorCode::UnsupportedRequestShape)
    );
}

#[test]
fn framed_request_reads_exactly_the_declared_body() {
    let bytes = b"POST /x HTTP/1.1\r\nContent-Length: 5\r\n\r\nhello world";
    let header_end = find_header_end(bytes).expect("headers");
    let frame = frame_local_request(bytes, header_end).expect("frame");
    assert_eq!(frame.body_start, header_end + 4);
    assert_eq!(frame.expected_len, header_end + 9);
    assert_eq!(next_body_step(bytes.len(), frame.expected_len, false), BodyReadStep::Complete);
    assert_eq!(next_body_step(0, 10, false), BodyReadStep::Read(10));
    assert_eq!(next_body_step(0, 10, true), BodyReadStep::Truncated);
    let request = finish_local_request(bytes, frame).expect("complete");
    assert_eq!(request.body, b"hello".to_vec());
    let short = b"POST /x HTTP/1.1\r\nContent-Length: 50\r\n\r\nhi";
    let frame = frame_local_request(short, find_header_end(short).expect("headers")).expect("frame");
    assert!(matches!(
        finish_local_request(short, frame),
        Err(CoreError::MinimalProxyRequestValidation { field: "body", .. })
    ));
    let huge = b"POST /x HTTP/1.1\r\nContent-Length: 70000\r\n\r\n";
    assert!(matches!(
        frame_local_request(huge, find_header_end(huge).expect("headers")),
        Err(CoreError::MinimalProxyRequestValidation { code: MinimalProxyErrorCode::RequestTooLarge, .. })
    ));
}

#[test]
fn health_and_unsupported_routes_are_answered_without_a_proxy_route() {
    let health = respond_to_local_request::<MockProviderHarness>(Ok(request("GET", "/health", b"")), None);
    assert_eq!(health.status_code, 200);
    assert_eq!(health.content_type, "text/plain; charset=utf-8");
    assert_eq!(health.body, LOCAL_HEALTH_RESPONSE_BODY);
    let chat = respond_to_local_request::<MockProviderHarness>(
        Ok(request("POST", "/v1/chat/completions", b"{}")),
        None,
    );
    assert_eq!(chat.status_code, 404);
    assert_eq!(
        chat.body,
        r#"{"error":{"code":"unsupported_path","message":"unsupported local proxy path","type":"oxmux_proxy_error"}}"#
    );
    let timeout = respond_to_local_request::<MockProviderHarness>(
        Err(CoreError::LocalRuntimeHealthServing { message: "timed out".to_string() }),
        None,
    );
    assert_eq!(timeout.status_code, 408);
    assert_eq!(timeout.reason, "Request Timeout");
    assert!(timeout.body.contains(r#""code":"local_runtime_io""#));
}

#[test]
fn rendered_response_has_length_type_and_close_headers() {
    let response = LocalHttpResponse {
        status_code: 200,
        reason: "OK",
        content_type: "text/plain; charset=utf-8",
        body: "héllo".to_string(),
    };
    assert_eq!(
        render_response(&response),
        "HTTP/1.1 200 OK\r\nContent-Length: 6\r\nContent-Type: text/plain; charset=utf-8\r\nConnection: close\r\n\r\nhéllo"
    );
}

#[test]
fn runtime_configuration_requires_loopback() {
    assert!(LocalHealthRuntimeConfig::new(IpAddress::V4(127, 0, 0, 1), 0).is_ok());
    assert!(matches!(
        LocalHealthRuntimeConfig::new(IpAddress::V4(0, 0, 0, 0), 8787),
        Err(CoreError::LocalRuntimeConfiguration { field: "listen_address", .. })
    ));
    assert_eq!(LocalHealthRuntimeConfig::loopback(9).socket_addr().port, 9);
}
