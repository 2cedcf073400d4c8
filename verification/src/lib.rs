//! Credential-gated clients for a repository host and an agent service.
//!
//! The library decides and the host acts: requests are described here and
//! sent elsewhere, responses are received elsewhere and read here, and the
//! commands in [`commands`] say, one step at a time, what the host is to do
//! next.

pub mod commands;
pub mod credentials;
pub mod error;
pub mod github;
pub mod host;
pub mod http;
pub mod json;
pub mod jules;
pub mod views;
