//! A SOCKS5 proxy core: the wire codec of the handshake and of connect
//! requests, a reversible byte obfuscation for tunnel links, and the
//! per-connection session state machine that composes them.

pub mod obfuscation;
pub mod session;
pub mod socks5;

pub use obfuscation::{ObfucationAsyncReader, ObfucationAsyncWriter};
