use proxytunnel::error::{judge, HandshakeError, Progress};
use proxytunnel::handshake::{Handshake, INITIAL_CAPACITY};
use proxytunnel::request::connect_request;
use proxytunnel::response::{ParseStatus, MAX_HEADERS};
use proxytunnel::target::tunnel_target;

/// Hands `reply` to a fresh handshake in reads of at most `chunk` bytes, each
/// also bounded by the free space, and returns every step's result.
fn feed(reply: &[u8], chunk: usize) -> (Handshake, Vec<Result<Progress, HandshakeError>>) {
    let mut hs = Handshake::new();
    let mut steps = Vec::new();
    let mut at = 0;
    while at < reply.len() {
        let n = chunk.min(hs.free_space()).min(reply.len() - at);
        let r = hs.receive(&reply[at..at + n]);
        at += n;
        let pending = r == Ok(Progress::Pending);
        steps.push(r);
        if !pending {
            break;
        }
    }
    (hs, steps)
}

#[test]
fn request_names_host_and_port() {
    assert_eq!(
        connect_request("example.com", 443),
        b"CONNECT example.com:443 HTTP/1.1\r\n\r\n".to_vec()
    );
}

#[test]
fn request_port_edges() {
    assert_eq!(connect_request("h", 0), b"CONNECT h:0 HTTP/1.1\r\n\r\n".to_vec());
    assert_eq!(connect_request("h", 9), b"CONNECT h:9 HTTP/1.1\r\n\r\n".to_vec());
    assert_eq!(connect_request("h", 10), b"CONNECT h:10 HTTP/1.1\r\n\r\n".to_vec());
    assert_eq!(
        connect_request("h", 65535),
        b"CONNECT h:65535 HTTP/1.1\r\n\r\n".to_vec()
    );
}

#[test]
fn request_keeps_utf8_host_bytes() {
    let host = "b\u{fc}cher.example";
    let mut expected = b"CONNECT ".to_vec();
    expected.extend_from_slice(host.as_bytes());
    expected.extend_from_slice(b":8080 HTTP/1.1\r\n\r\n");
    assert_eq!(connect_request(host, 8080), expected);
}

#[test]
fn ok_in_one_read_establishes() {
    let mut hs = Handshake::new();
    assert_eq!(hs.receive(b"HTTP/1.1 200 OK\r\n\r\n"), Ok(Progress::Established));
}

#[test]
fn ok_in_single_byte_reads_establishes() {
    let reply = b"HTTP/1.1 200 OK\r\n\r\n";
    let (_, steps) = feed(reply, 1);
    assert_eq!(steps.len(), reply.len());
    for step in &steps[..reply.len() - 1] {
        assert_eq!(*step, Ok(Progress::Pending));
    }
    assert_eq!(steps[reply.len() - 1], Ok(Progress::Established));
}

#[test]
fn auth_required_is_rejected_with_reason() {
    let mut hs = Handshake::new();
    assert_eq!(
        hs.receive(b"HTTP/1.1 407 Proxy Authentication Required\r\n\r\n"),
        Err(HandshakeError::ProxyRejected {
            code: 407,
            reason: "Proxy Authentication Required".to_string(),
        })
    );
}

#[test]
fn close_before_any_byte_is_early_eof() {
    let mut hs = Handshake::new();
    assert_eq!(hs.receive(b""), Err(HandshakeError::EarlyEof));
}

#[test]
fn close_after_partial_reply_is_early_eof() {
    let mut hs = Handshake::new();
    assert_eq!(hs.receive(b"HTTP/1.1 200 OK\r\n"), Ok(Progress::Pending));
    assert_eq!(hs.receive(b""), Err(HandshakeError::EarlyEof));
}

fn large_reply() -> Vec<u8> {
    let mut reply = b"HTTP/1.1 200 Connection established\r\n".to_vec();
    for i in 0..8 {
        reply.extend_from_slice(format!("X-Filler-{}: {}\r\n", i, "v".repeat(40)).as_bytes());
    }
    reply.extend_from_slice(b"\r\n");
    reply
}

#[test]
fn reply_larger_than_initial_room_grows_and_establishes() {
    let reply = large_reply();
    assert!(reply.len() >= 4 * INITIAL_CAPACITY);
    let (hs, steps) = feed(&reply, usize::MAX);
    assert_eq!(*steps.last().unwrap(), Ok(Progress::Established));
    assert!(hs.capacity() >= reply.len());
    assert_eq!(hs.received_len(), reply.len());
}

#[test]
fn room_doubles_exactly_when_full() {
    let mut hs = Handshake::new();
    let start = b"HTTP/1.1 200 OK\r\nX: ";
    assert_eq!(hs.receive(start), Ok(Progress::Pending));
    assert_eq!(hs.capacity(), INITIAL_CAPACITY);
    let rest = vec![b'a'; hs.free_space()];
    assert_eq!(hs.receive(&rest), Ok(Progress::Pending));
    assert_eq!(hs.capacity(), 2 * INITIAL_CAPACITY);
    assert_eq!(hs.free_space(), INITIAL_CAPACITY);
}

#[test]
fn missing_http_token_is_malformed() {
    let mut hs = Handshake::new();
    assert_eq!(
        hs.receive(b"FOO/1.1 200 OK\r\n\r\n"),
        Err(HandshakeError::MalformedResponse(Some(httparse::Error::Version)))
    );
}

#[test]
fn malformed_bytes_in_small_reads_fail() {
    let (_, steps) = feed(b"\x00\x01 garbage here\r\n\r\n", 3);
    assert!(matches!(
        steps.last().unwrap(),
        Err(HandshakeError::MalformedResponse(Some(_)))
    ));
}

#[test]
fn too_many_headers_is_malformed() {
    let mut reply = b"HTTP/1.1 200 OK\r\n".to_vec();
    for i in 0..=MAX_HEADERS {
        reply.extend_from_slice(format!("H{}: v\r\n", i).as_bytes());
    }
    reply.extend_from_slice(b"\r\n");
    let (_, steps) = feed(&reply, usize::MAX);
    assert_eq!(
        *steps.last().unwrap(),
        Err(HandshakeError::MalformedResponse(Some(httparse::Error::TooManyHeaders)))
    );
}

#[test]
fn judge_complete_without_code_is_malformed() {
    assert_eq!(
        judge(ParseStatus::Complete { code: None, reason: Some("OK".to_string()) }),
        Err(HandshakeError::MalformedResponse(None))
    );
}

#[test]
fn judge_rejection_without_reason_uses_placeholder() {
    assert_eq!(
        judge(ParseStatus::Complete { code: Some(503), reason: None }),
        Err(HandshakeError::ProxyRejected { code: 503, reason: "no reason".to_string() })
    );
}

#[test]
fn judge_partial_and_ok() {
    assert_eq!(judge(ParseStatus::Partial), Ok(Progress::Pending));
    assert_eq!(
        judge(ParseStatus::Complete { code: Some(200), reason: None }),
        Ok(Progress::Established)
    );
    assert_eq!(
        judge(ParseStatus::Invalid(httparse::Error::Status)),
        Err(HandshakeError::MalformedResponse(Some(httparse::Error::Status)))
    );
}

#[test]
fn target_without_port_is_invalid() {
    assert_eq!(tunnel_target(Some("example.com"), None), Err(HandshakeError::InvalidTarget));
}

#[test]
fn target_without_host_is_invalid() {
    assert_eq!(tunnel_target(None, Some(443)), Err(HandshakeError::InvalidTarget));
}

#[test]
fn target_with_host_and_port() {
    assert_eq!(tunnel_target(Some("example.com"), Some(443)), Ok(("example.com", 443)));
}

#[test]
fn bytes_after_header_block_do_not_matter() {
    let mut hs = Handshake::new();
    assert_eq!(
        hs.receive(b"HTTP/1.1 200 OK\r\n\r\n\x16\x03\x01"),
        Ok(Progress::Established)
    );
}
