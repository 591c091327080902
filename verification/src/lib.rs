//! The passkey registration and login logic of a Crux app, with the session
//! handling of its WebAuthn server.
pub mod bytes;
pub mod http;
pub mod passkey;
pub mod app;
pub mod session;
pub mod server;
pub mod ceremony;
pub mod shell;
pub mod guarded;
