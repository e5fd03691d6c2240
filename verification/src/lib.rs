//! Pairing and secure-command core of a local agent: an OTP pairing
//! handshake that bootstraps a shared secret via X25519, a session store
//! binding bearer credentials to that secret, an authenticated-encryption
//! transport for post-pairing traffic, and a cancellation registry for
//! in-flight commands.
pub mod codec;
pub mod controller;
pub mod error;
pub mod hex;
pub mod model;
pub mod otp;
pub mod registry;
pub mod store;
