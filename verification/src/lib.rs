//! Authentication gate for a GitHub Copilot agent service.
//!
//! The library verifies detached ECDSA signatures over raw webhook request
//! bodies, authenticates requests from trust-bearing headers, selects the
//! current verification key from a published key set, and coordinates the
//! CSRF-token handshake of an OAuth2 authorization-code flow.

pub mod agent;
pub mod config;
pub mod copilot_public_keys;
pub mod messages;
pub mod oauth;
