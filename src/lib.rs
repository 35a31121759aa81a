//! Server-side core of the LostLove transport: wire codec, cryptographic
//! key schedule, handshake state machine and the session registry.

pub mod error;
pub mod stream;
pub mod packet;
pub mod aead;
pub mod hse;
pub mod kdf;
pub mod keys;
pub mod session;
pub mod handshake;
pub mod connection;
pub mod config;
pub mod router;
