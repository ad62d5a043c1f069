//! Authentication lifecycle for a desktop client of a music service: PKCE
//! challenges, loopback capture of the authorization redirect, token
//! exchange and refresh decisions, and machine-bound encrypted storage of
//! the resulting credentials.
pub mod callback;
pub mod crypto;
pub mod pkce;
pub mod session;
pub mod storage;
pub mod types;
