//! The WebSocket opening handshake and the decoding of client frames.
use crate::bytes::push_all;
use vstd::prelude::*;
use vstd::utf8::encode_utf8;

verus! {

/// The header line that carries the client's key; group 1 is the key.
pub const KEY_PATTERN: &'static str = "Sec-WebSocket-Key: (.*)";

/// The GUID that RFC 6455 appends to the client's key.
pub const WEBSOCKET_GUID: &'static str = "258EAFA5-E914-47DA-95CA-C5AB0DC85B11";

pub const HANDSHAKE_HEAD: &'static str =
    "HTTP/1.1 101 Switching Protocols\r\nConnection: Upgrade\r\nUpgrade: websocket\r\nSec-WebSocket-Accept: ";

pub const HANDSHAKE_TAIL: &'static str = "\r\n\r\n";

/// Capture group 1 of the leftmost-first match of `pattern` in `hay`.
pub uninterp spec fn first_group_of(pattern: Seq<char>, hay: Seq<u8>) -> Option<Seq<u8>>;

/// The text that lossy UTF-8 decoding makes of `b`.
pub uninterp spec fn lossy_text_of(b: Seq<u8>) -> Seq<char>;

/// `s` without its leading and trailing whitespace.
pub uninterp spec fn trimmed_of(s: Seq<char>) -> Seq<char>;

/// The SHA-1 digest of `data`.
pub uninterp spec fn sha1_of(data: Seq<u8>) -> Seq<u8>;

/// The standard, padded base64 encoding of `data`.
pub uninterp spec fn base64_of(data: Seq<u8>) -> Seq<char>;

/// Relies on regex::bytes::Regex::new, Regex::captures and Captures::get:
/// the bytes of group 1 of the leftmost-first match, or `None` when the
/// pattern does not compile, does not match, or group 1 took no part.
#[verifier::external_body]
fn first_group(pattern: &str, hay: &[u8]) -> (r: Option<Vec<u8>>)
    ensures
        match r {
            Some(v) => first_group_of(pattern@, hay@) == Some(v@),
            None => first_group_of(pattern@, hay@) is None,
        },
{
    let re = regex::bytes::Regex::new(pattern).ok()?;
    re.captures(hay).and_then(|c| c.get(1)).map(|m| m.as_bytes().to_vec())
}

/// Relies on String::from_utf8_lossy: decodes `b`, with U+FFFD for each
/// invalid sequence.
#[verifier::external_body]
fn utf8_lossy(b: &[u8]) -> (r: String)
    ensures
        r@ == lossy_text_of(b@),
{
    String::from_utf8_lossy(b).into_owned()
}

/// Relies on str::trim: a slice of `s` without leading and trailing whitespace.
#[verifier::external_body]
fn trim_text(s: &str) -> (r: String)
    ensures
        r@ == trimmed_of(s@),
        r@.len() <= s@.len(),
{
    s.trim().to_string()
}

/// Relies on sha1::Sha1 through digest::Digest::digest: the 20-byte digest.
#[verifier::external_body]
fn sha1_digest(data: &[u8]) -> (r: Vec<u8>)
    ensures
        r@ == sha1_of(data@),
        r@.len() == 20,
{
    <sha1::Sha1 as sha1::Digest>::digest(data).to_vec()
}

/// Relies on base64's STANDARD engine (base64::Engine::encode): padded
/// base64, four characters for every three bytes begun. It panics when that
/// length overflows `usize`, which the bound on `data` rules out.
#[verifier::external_body]
fn base64_encode(data: &[u8]) -> (r: String)
    requires
        data@.len() <= usize::MAX / 2,
    ensures
        r@ == base64_of(data@),
        r@.len() == 4 * ((data@.len() + 2) / 3),
{
    base64::Engine::encode(&base64::engine::general_purpose::STANDARD, data)
}

/// The key a client sent, as the handshake answers it.
pub open spec fn ws_key_of(headers: Seq<u8>) -> Option<Seq<char>> {
    match first_group_of(KEY_PATTERN@, headers) {
        Some(m) => Some(trimmed_of(lossy_text_of(m))),
        None => None,
    }
}

/// The `Sec-WebSocket-Key` of a request, decoded and trimmed; `None` when
/// the request carries no such header.
pub fn parse_ws_key(headers: &[u8]) -> (r: Option<String>)
    ensures
        match r {
            Some(k) => ws_key_of(headers@) == Some(k@),
            None => ws_key_of(headers@) is None,
        },
{
    match first_group(KEY_PATTERN, headers) {
        Some(m) => {
            let text = utf8_lossy(m.as_slice());
            Some(trim_text(text.as_str()))
        },
        None => None,
    }
}

/// What the server sends back as `Sec-WebSocket-Accept` for `key`.
pub open spec fn accept_of(key: Seq<char>) -> Seq<char> {
    base64_of(sha1_of(encode_utf8(key) + encode_utf8(WEBSOCKET_GUID@)))
}

/// The accept value for a client's key: base64 of the SHA-1 of the key
/// followed by the WebSocket GUID.
pub fn accept_key(key: &str) -> (r: String)
    ensures
        r@ == accept_of(key@),
{
    let mut data: Vec<u8> = Vec::new();
    push_all(&mut data, key.as_bytes());
    push_all(&mut data, WEBSOCKET_GUID.as_bytes());
    let digest = sha1_digest(data.as_slice());
    base64_encode(digest.as_slice())
}

/// The `101 Switching Protocols` response to a client that sent `key`.
pub fn handshake_response(key: &str) -> (r: Vec<u8>)
    ensures
        r@ == encode_utf8(HANDSHAKE_HEAD@) + encode_utf8(accept_of(key@)) + encode_utf8(HANDSHAKE_TAIL@),
{
    let accept = accept_key(key);
    let mut out: Vec<u8> = Vec::new();
    push_all(&mut out, HANDSHAKE_HEAD.as_bytes());
    push_all(&mut out, accept.as_str().as_bytes());
    push_all(&mut out, HANDSHAKE_TAIL.as_bytes());
    out
}

/// What one frame read from a client asks of the server.
#[derive(Debug, Clone, PartialEq, Eq)]
pub enum Frame {
    /// The connection is done: nothing was read, or the first byte is zero.
    Close,
    /// A text frame, with its payload unmasked.
    Text(Vec<u8>),
    /// A ping, to be answered with a pong.
    Ping,
    /// A frame of another opcode, which is ignored.
    Unsupported(u8),
    /// A text frame that announces more payload than the buffer holds.
    Truncated,
}

/// The low four bits of the first byte.
pub open spec fn opcode_of(buf: Seq<u8>) -> u8 {
    (buf[0] % 16) as u8
}

/// The length of a short payload, from the low seven bits of the second byte.
pub open spec fn payload_len_of(buf: Seq<u8>) -> nat {
    (buf[1] % 128) as nat
}

/// The `n` payload bytes that follow the four-byte mask, each XORed with the
/// mask byte of its position modulo four.
pub open spec fn unmask(buf: Seq<u8>, n: nat) -> Seq<u8> {
    Seq::new(n, |i: int| buf[6 + i] ^ buf[2 + i % 4])
}

/// Whether a text frame's announced payload lies within the buffer.
pub open spec fn text_fits(buf: Seq<u8>) -> bool {
    buf.len() >= 6 && buf.len() >= 6 + payload_len_of(buf)
}

/// Reads the frame at the start of `buf`.
pub fn decode_frame(buf: &[u8]) -> (r: Frame)
    ensures
        (buf@.len() == 0 || buf@[0] == 0) <==> r is Close,
        buf@.len() > 0 && buf@[0] != 0 ==> {
            let op = opcode_of(buf@);
            &&& op == 1 && text_fits(buf@) ==> (r is Text && r->Text_0@ == unmask(buf@, payload_len_of(buf@)))
            &&& op == 1 && !text_fits(buf@) ==> r is Truncated
            &&& op == 9 ==> r is Ping
            &&& op != 1 && op != 9 ==> r == Frame::Unsupported(op)
        },
{
    if buf.len() == 0 || buf[0] == 0 {
        return Frame::Close;
    }
    let opcode: u8 = buf[0] % 16;
    if opcode == 1 {
        if buf.len() < 6 {
            return Frame::Truncated;
        }
        let len: usize = (buf[1] % 128) as usize;
        if buf.len() - 6 < len {
            return Frame::Truncated;
        }
        let mut payload: Vec<u8> = Vec::with_capacity(len);
        let mut i: usize = 0;
        while i < len
            invariant
                i <= len,
                len == payload_len_of(buf@),
                6 + len <= buf@.len(),
                payload@ == unmask(buf@, i as nat),
            decreases len - i,
        {
            payload.push(buf[6 + i] ^ buf[2 + i % 4]);
            i = i + 1;
            assert(payload@ =~= unmask(buf@, i as nat));
        }
        Frame::Text(payload)
    } else if opcode == 9 {
        Frame::Ping
    } else {
        Frame::Unsupported(opcode)
    }
}

/// The pong frame that answers a ping: final fragment, opcode 10, no payload.
pub fn pong_frame() -> (r: Vec<u8>)
    ensures
        r@ == seq![138u8, 0u8],
{
    let mut out: Vec<u8> = Vec::new();
    out.push(138u8);
    out.push(0u8);
    assert(out@ =~= seq![138u8, 0u8]);
    out
}

} // verus!
