use hackline::error::GatewayError;
use hackline::http_router::{
    check_ack, find_double_crlf, on_preamble_chunk, parse_host_header, resolve_route, PreambleStep,
    HEADER_LIMIT,
};

#[test]
fn host_header_parsing() {
    let req = b"GET / HTTP/1.1\r\nHost: device-1.cloud.example.com\r\nUser-Agent: x\r\n\r\n";
    assert_eq!(
        parse_host_header(req).as_deref(),
        Some("device-1.cloud.example.com")
    );
}

#[test]
fn host_header_missing() {
    let req = b"GET / HTTP/1.1\r\nUser-Agent: x\r\n\r\n";
    assert!(parse_host_header(req).is_none());
}

#[test]
fn host_header_spellings_and_trimming() {
    assert_eq!(parse_host_header(b"GET / HTTP/1.1\r\nhost:a.example\r\n\r\n").as_deref(), Some("a.example"));
    assert_eq!(parse_host_header(b"GET / HTTP/1.1\r\nHOST: \tb.example  \r\n\r\n").as_deref(), Some("b.example"));
    assert!(parse_host_header(b"GET / HTTP/1.1\r\nhOsT: c\r\n\r\n").is_none());
    // A header after the blank line is body, not a header.
    assert!(parse_host_header(b"GET / HTTP/1.1\r\n\r\nHost: late\r\n").is_none());
    // First Host wins.
    assert_eq!(parse_host_header(b"X\r\nHost: one\r\nHost: two\r\n").as_deref(), Some("one"));
    // Not UTF-8.
    assert!(parse_host_header(b"GET / HTTP/1.1\r\nHost: \xff\r\n").is_none());
    // A Host line that the bytes cut off before its CRLF does not count.
    assert!(parse_host_header(b"GET / HTTP/1.1\r\nHost: partial").is_none());
    assert_eq!(parse_host_header(b"GET / HTTP/1.1\r\nHost: whole\r\n").as_deref(), Some("whole"));
    assert!(parse_host_header(b"").is_none());
    // Unicode white space around the value is trimmed too.
    assert_eq!(
        parse_host_header("X\r\nHost:\u{3000}\u{a0}h.example\u{85}\u{2009}\r\n".as_bytes()).as_deref(),
        Some("h.example")
    );
}

#[test]
fn double_crlf_position() {
    assert_eq!(find_double_crlf(b"ab\r\n\r\ncd"), Some(2));
    assert_eq!(find_double_crlf(b"\r\n\r\n\r\n\r\n"), Some(0));
    assert_eq!(find_double_crlf(b"\r\n\r"), None);
    assert_eq!(find_double_crlf(b""), None);
    assert_eq!(find_double_crlf(b"a\r\nb\r\n"), None);
}

#[test]
fn preamble_routes_after_host_arrives() {
    let mut prefix = Vec::new();
    assert_eq!(on_preamble_chunk(&mut prefix, b"GET / HTTP/1.1\r\n"), PreambleStep::ReadMore);
    assert_eq!(
        on_preamble_chunk(&mut prefix, b"Host: dev.example\r\n"),
        PreambleStep::Route("dev.example".to_string())
    );
    assert_eq!(prefix, b"GET / HTTP/1.1\r\nHost: dev.example\r\n".to_vec());
}

#[test]
fn preamble_rejections() {
    let mut prefix = Vec::new();
    assert_eq!(
        on_preamble_chunk(&mut prefix, b""),
        PreambleStep::Reject(GatewayError::BadRequest("HTTP preamble closed early".to_string()))
    );
    let mut prefix = Vec::new();
    assert_eq!(
        on_preamble_chunk(&mut prefix, b"GET / HTTP/1.1\r\nUser-Agent: x\r\n\r\n"),
        PreambleStep::Reject(GatewayError::BadRequest("HTTP request missing Host header".to_string()))
    );
    let mut prefix = Vec::new();
    let big = vec![b'a'; HEADER_LIMIT + 1];
    assert_eq!(
        on_preamble_chunk(&mut prefix, &big),
        PreambleStep::Reject(GatewayError::BadRequest("HTTP header section exceeded 8 KiB".to_string()))
    );
    let mut prefix = Vec::new();
    let exact = vec![b'a'; HEADER_LIMIT];
    assert_eq!(on_preamble_chunk(&mut prefix, &exact), PreambleStep::ReadMore);
}

#[test]
fn route_resolution() {
    assert_eq!(
        resolve_route("x.example", None).unwrap_err(),
        GatewayError::BadRequest("no http tunnel for host `x.example`".to_string())
    );
    assert_eq!(
        resolve_route("x.example", Some(("NOPE".to_string(), 80))).unwrap_err(),
        GatewayError::BadRequest("zid must be lowercase hex".to_string())
    );
    let (z, port) = resolve_route("x.example", Some(("aabb".to_string(), 8080))).unwrap();
    assert_eq!(z.as_str(), "aabb");
    assert_eq!(port, 8080);
    // The port is narrowed as `as u16` narrows it.
    let (_, port) = resolve_route("x", Some(("aabb".to_string(), 65536 + 81))).unwrap();
    assert_eq!(port, 81);
}

#[test]
fn ack_decisions() {
    assert_eq!(check_ack(true, None), Ok(()));
    assert_eq!(check_ack(true, Some("ignored".to_string())), Ok(()));
    assert_eq!(
        check_ack(false, None),
        Err(GatewayError::BadRequest("device rejected".to_string()))
    );
    assert_eq!(
        check_ack(false, Some("port not allowed".to_string())),
        Err(GatewayError::BadRequest("port not allowed".to_string()))
    );
}
