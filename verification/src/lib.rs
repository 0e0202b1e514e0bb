//! A three-step handshake that turns a one-time code into a session:
//! a code check yields a verification token, the token is exchanged for a
//! temporary Ed25519 credential, and a signature made with that credential
//! opens a session. Every artifact lives in a registry whose entries expire.
//!
//! Time never comes from a clock inside the library: each operation takes the
//! current instant as a number of milliseconds on a monotonic clock.

pub mod clock;
pub mod codec;
pub mod coordinator;
pub mod error;
pub mod keys;
pub mod laws;
pub mod possession;
pub mod preferences;
pub mod registry;
pub mod text;
