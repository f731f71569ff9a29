//! Stateless access tokens, the framing of the encryption channel and the
//! key space of the identity store for a multi-tenant REST API.

pub mod error;
pub mod clock;
pub mod config;
pub mod database;
pub mod encoding;
pub mod secret;
pub mod text;
pub mod utils;
pub mod v1;
