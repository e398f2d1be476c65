//! A small HTTP request-routing and handler-dispatch core with shared,
//! read-only application state.
//!
//! The library is pure: it maps a request (method, path, body) and the
//! shared state to a response, with exact-match routing and a not-found
//! default. Listening, accepting connections and writing responses back
//! belong to the surrounding program.

pub mod http;
pub mod state;
pub mod handlers;
pub mod router;
pub mod laws;
