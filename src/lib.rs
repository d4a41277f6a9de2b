//! A bounded worker pool, modelled as a verified state machine, with the
//! request routing and WebSocket framing of a small HTTP server around it.

pub mod thread_pool;

pub mod bytes;
pub mod http;
pub mod websocket;
