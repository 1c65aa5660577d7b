//! A secure channel protocol engine: nonce management, authenticated
//! encryption framing over a pluggable vault, the handshake state machine,
//! the outbound route rewriting of the encryptor, and the decisions of the
//! node commands and metrics that surround them.
pub mod channel;
pub mod commands;
pub mod encryptor;
pub mod error;
pub mod handshake;
pub mod helper;
pub mod metrics;
pub mod nonce;
pub mod transport;
pub mod vault;
