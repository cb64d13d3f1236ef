//! A stand-in for the cloud endpoint of the miIO device protocol.
//!
//! A device talks to its cloud in UDP datagrams. Each datagram is a frame: a
//! header of 32 bytes and, behind it, a body encrypted under a key that both
//! sides derive from a shared secret, the cloud key. This crate holds the
//! frame codec, the handshake packet that answers a device's first contact,
//! and the table that picks a fixed reply for each request a device makes.
//! Sockets and JSON text are left to the program around it.

pub mod buffer;
pub mod clock;
pub mod codec;
pub mod crypto;
pub mod dispatch;
pub mod header;
pub mod json;
pub mod payload;
pub mod timesync;
