use server::http::{
    classify_request, index_response, not_found_response, plan_connection, Action, Route,
};
use server::websocket::{accept_key, decode_frame, handshake_response, parse_ws_key, pong_frame, Frame};

const UPGRADE_REQUEST: &[u8] = b"GET /websocket HTTP/1.1\r\nHost: localhost:8080\r\nUpgrade: websocket\r\nConnection: Upgrade\r\nSec-WebSocket-Key: dGhlIHNhbXBsZSBub25jZQ==\r\nSec-WebSocket-Version: 13\r\n\r\n";

#[test]
fn routes_by_request_line() {
    assert_eq!(classify_request(b"GET / HTTP/1.1\r\nHost: x\r\n\r\n"), Route::Index);
    assert_eq!(classify_request(b"GET /sleep HTTP/1.1\r\n\r\n"), Route::Sleep);
    assert_eq!(classify_request(b"GET /websocket HTTP/1.1\r\n\r\n"), Route::WebSocket);
    assert_eq!(classify_request(b"GET /other HTTP/1.1\r\n\r\n"), Route::NotFound);
    assert_eq!(classify_request(b"POST / HTTP/1.1\r\n\r\n"), Route::NotFound);
    assert_eq!(classify_request(b""), Route::NotFound);
    assert_eq!(classify_request(b"GET / HTTP/1.1"), Route::NotFound);
}

#[test]
fn pages_carry_status_line_and_body() {
    assert_eq!(index_response(b"<p>hi</p>"), b"HTTP/1.1 200 OK\r\n\r\n<p>hi</p>".to_vec());
    assert_eq!(not_found_response(b"gone"), b"HTTP/1.1 404 NOT FOUND\r\n\r\ngone".to_vec());
    assert_eq!(index_response(b""), b"HTTP/1.1 200 OK\r\n\r\n".to_vec());
}

#[test]
fn key_is_read_and_trimmed() {
    assert_eq!(parse_ws_key(UPGRADE_REQUEST), Some("dGhlIHNhbXBsZSBub25jZQ==".to_string()));
    let mut padded = b"GET /websocket HTTP/1.1\r\nSec-WebSocket-Key:  abc \r\n\r\n".to_vec();
    padded.resize(1024, 0);
    assert_eq!(parse_ws_key(&padded), Some("abc".to_string()));
}

#[test]
fn missing_key_is_none() {
    assert_eq!(parse_ws_key(b"GET /websocket HTTP/1.1\r\nHost: x\r\n\r\n"), None);
    assert_eq!(parse_ws_key(b""), None);
}

#[test]
fn accept_key_matches_rfc_example() {
    assert_eq!(accept_key("dGhlIHNhbXBsZSBub25jZQ=="), "s3pPLMBiTxaQ9kYGzzhZRbK+xOo=");
}

#[test]
fn handshake_response_is_complete() {
    let expected = b"HTTP/1.1 101 Switching Protocols\r\nConnection: Upgrade\r\nUpgrade: websocket\r\nSec-WebSocket-Accept: s3pPLMBiTxaQ9kYGzzhZRbK+xOo=\r\n\r\n".to_vec();
    assert_eq!(handshake_response("dGhlIHNhbXBsZSBub25jZQ=="), expected);
}

#[test]
fn plan_follows_route_and_key() {
    assert_eq!(plan_connection(b"GET / HTTP/1.1\r\n\r\n"), Action::ServeIndex);
    assert_eq!(plan_connection(b"GET /sleep HTTP/1.1\r\n\r\n"), Action::SleepThenServeIndex);
    assert_eq!(
        plan_connection(UPGRADE_REQUEST),
        Action::Upgrade("dGhlIHNhbXBsZSBub25jZQ==".to_string())
    );
    assert_eq!(plan_connection(b"GET /websocket HTTP/1.1\r\n\r\n"), Action::ServeNotFound);
    assert_eq!(plan_connection(b"GET /nope HTTP/1.1\r\n\r\n"), Action::ServeNotFound);
}

#[test]
fn masked_text_frame_is_unmasked() {
    let mut buf = vec![0x81, 0x85, 0x37, 0xfa, 0x21, 0x3d, 0x7f, 0x9f, 0x4d, 0x51, 0x58];
    assert_eq!(decode_frame(&buf), Frame::Text(b"Hello".to_vec()));
    buf.resize(1024, 0);
    assert_eq!(decode_frame(&buf), Frame::Text(b"Hello".to_vec()));
}

#[test]
fn empty_text_frame_has_empty_payload() {
    assert_eq!(decode_frame(&[0x81, 0x80, 1, 2, 3, 4]), Frame::Text(vec![]));
}

#[test]
fn short_text_frame_is_truncated() {
    assert_eq!(decode_frame(&[0x81, 0x85, 1, 2, 3, 4, 5]), Frame::Truncated);
    assert_eq!(decode_frame(&[0x81]), Frame::Truncated);
}

#[test]
fn zero_or_nothing_closes() {
    assert_eq!(decode_frame(&[]), Frame::Close);
    assert_eq!(decode_frame(&[0u8; 1024]), Frame::Close);
}

#[test]
fn ping_and_other_opcodes() {
    assert_eq!(decode_frame(&[0x89, 0x00]), Frame::Ping);
    assert_eq!(decode_frame(&[0x82, 0x00]), Frame::Unsupported(2));
    assert_eq!(decode_frame(&[0x88, 0x00]), Frame::Unsupported(8));
}

#[test]
fn pong_is_two_bytes() {
    assert_eq!(pong_frame(), vec![138u8, 0]);
}
