//! Message framing over a reliable byte stream, with a few companion
//! utilities: a stop-and-wait segment protocol, hex and SHA-256 digests,
//! and AES / RSA encryption front-ends.

pub mod aes;
pub mod error;
pub mod hash;
pub mod header;
pub mod integrity;
pub mod message;
pub mod receiver;
pub mod rsa_keys;
pub mod sender;
pub mod transfer;
