//! Endpoint registry and resolver for a local dapp-hosting gateway.
//!
//! The library decides which content source answers a request for a given
//! application identifier: a filesystem-discovered bundle, a built-in page,
//! a proxy-auto-config generator, a token-gated web relay, or a redirection
//! responder.  Filesystem scanning, HTTP listening and the actual remote
//! fetching are left to the surrounding program; this crate holds the
//! resolution and composition rules, verified.

pub mod apps;
pub mod endpoint;
pub mod proxypac;
pub mod redirect;
pub mod registry;
pub mod strfmt;
pub mod web;
