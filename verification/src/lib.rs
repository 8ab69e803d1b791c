//! A verified core for a Jupyter-style kernel wire-protocol client.
//!
//! The library covers the protocol layer: message envelope construction,
//! HMAC-SHA256 signing, multipart frame serialization and deserialization,
//! and the reply-driven execution-state machine. Opening the sockets,
//! starting the kernel and running the read-eval-print loop are left to the
//! surrounding program, which hands frames in and out as plain byte vectors.

pub mod bytes;
pub mod crypto;
pub mod json;
pub mod codec;
pub mod client;
