//! Routing of a request by its request line, and the pages sent back.
use crate::bytes::{is_prefix, push_all, starts_with};
use crate::websocket::{parse_ws_key, ws_key_of};
use vstd::prelude::*;
use vstd::utf8::encode_utf8;

verus! {

pub const INDEX_REQUEST: &'static str = "GET / HTTP/1.1\r\n";

pub const SLEEP_REQUEST: &'static str = "GET /sleep HTTP/1.1\r\n";

pub const WEBSOCKET_REQUEST: &'static str = "GET /websocket HTTP/1.1\r\n";

pub const OK_HEAD: &'static str = "HTTP/1.1 200 OK\r\n\r\n";

pub const NOT_FOUND_HEAD: &'static str = "HTTP/1.1 404 NOT FOUND\r\n\r\n";

/// What a connection asked for.
#[derive(Debug, Clone, Copy, PartialEq, Eq, Structural)]
pub enum Route {
    /// The index page.
    Index,
    /// The index page, after a pause.
    Sleep,
    /// An upgrade to a WebSocket.
    WebSocket,
    /// Anything else.
    NotFound,
}

/// The route of a request, by the first request line that begins it.
pub open spec fn route_of(buf: Seq<u8>) -> Route {
    if is_prefix(encode_utf8(INDEX_REQUEST@), buf) {
        Route::Index
    } else if is_prefix(encode_utf8(SLEEP_REQUEST@), buf) {
        Route::Sleep
    } else if is_prefix(encode_utf8(WEBSOCKET_REQUEST@), buf) {
        Route::WebSocket
    } else {
        Route::NotFound
    }
}

/// Decides what a request asks for from the bytes read off the connection.
pub fn classify_request(buf: &[u8]) -> (r: Route)
    ensures
        r == route_of(buf@),
{
    if starts_with(buf, INDEX_REQUEST.as_bytes()) {
        Route::Index
    } else if starts_with(buf, SLEEP_REQUEST.as_bytes()) {
        Route::Sleep
    } else if starts_with(buf, WEBSOCKET_REQUEST.as_bytes()) {
        Route::WebSocket
    } else {
        Route::NotFound
    }
}

/// The response that serves the index page `body`.
pub fn index_response(body: &[u8]) -> (r: Vec<u8>)
    ensures
        r@ == encode_utf8(OK_HEAD@) + body@,
{
    let mut out: Vec<u8> = Vec::new();
    push_all(&mut out, OK_HEAD.as_bytes());
    push_all(&mut out, body);
    out
}

/// The response that serves the not-found page `body`.
pub fn not_found_response(body: &[u8]) -> (r: Vec<u8>)
    ensures
        r@ == encode_utf8(NOT_FOUND_HEAD@) + body@,
{
    let mut out: Vec<u8> = Vec::new();
    push_all(&mut out, NOT_FOUND_HEAD.as_bytes());
    push_all(&mut out, body);
    out
}

/// What the server does with a connection after reading its request.
#[derive(Debug, Clone, PartialEq, Eq)]
pub enum Action {
    ServeIndex,
    /// Pause, then serve the index page.
    SleepThenServeIndex,
    /// Answer the WebSocket handshake for this key, then read frames.
    Upgrade(String),
    ServeNotFound,
}

/// Decides how to answer the request in `buf`. A WebSocket request without a
/// key is answered as not found.
pub fn plan_connection(buf: &[u8]) -> (r: Action)
    ensures
        route_of(buf@) is Index <==> r is ServeIndex,
        route_of(buf@) is Sleep <==> r is SleepThenServeIndex,
        (route_of(buf@) is WebSocket && ws_key_of(buf@) is Some)
            <==> (r is Upgrade && ws_key_of(buf@) == Some(r->Upgrade_0@)),
        r is ServeNotFound <==> (route_of(buf@) is NotFound
            || (route_of(buf@) is WebSocket && ws_key_of(buf@) is None)),
{
    match classify_request(buf) {
        Route::Index => Action::ServeIndex,
        Route::Sleep => Action::SleepThenServeIndex,
        Route::WebSocket => match parse_ws_key(buf) {
            Some(key) => Action::Upgrade(key),
            None => Action::ServeNotFound,
        },
        Route::NotFound => Action::ServeNotFound,
    }
}

} // verus!
