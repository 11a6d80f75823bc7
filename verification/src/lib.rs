//! The per-connection engine of a multi-route HTTP/WebSocket forwarder:
//! request classification, destination rewriting for plain HTTP forwarding,
//! the dual-handshake upgrade protocol that may open a WebSocket tunnel, and
//! the bidirectional byte relay that carries the tunnel's traffic. Each
//! decision the engine takes is a verified function over plain values; the
//! runtime around it performs the I/O these decisions call for.
pub mod classify;
pub mod config;
pub mod dispatch;
pub mod forward;
pub mod http;
pub mod relay;
pub mod text;
pub mod upgrade;
