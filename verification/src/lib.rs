//! Session and cross-origin handoff rules of a single-user passkey login
//! service: origin resolution, the host allow-list, ceremony bookkeeping,
//! token claims and the canonical-origin redirect policy.

pub mod accounts;
pub mod api;
pub mod auth;
pub mod ceremony;
pub mod clock;
pub mod config;
pub mod frontend;
pub mod handoff;
pub mod health;
pub mod middleware;
pub mod origin;
pub mod query;
pub mod redirect;
pub mod state;
pub mod text;
