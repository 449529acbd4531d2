//! A minimal "what is my public address" protocol over UDP.
//!
//! A client sends an empty probe datagram to a server; the server answers
//! with the four octets of the IPv4 address the probe came from. This crate
//! holds the protocol's logic: the address codec, the error taxonomy, and the
//! decisions that the client session and the server loop take on the outcome
//! of each socket operation. The socket operations themselves are performed
//! by the caller, which hands their outcomes in as plain values.
pub mod address;
pub mod client;
pub mod codec;
pub mod config;
pub mod error;
pub mod exchange;
pub mod server;
