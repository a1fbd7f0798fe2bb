//! Push-to-deploy webhook handling: request authentication against
//! per-repository policies, and the decisions of the repository
//! synchronisation that an authenticated request triggers.

pub mod config;
pub mod git;
pub mod hmac;
pub mod text;
