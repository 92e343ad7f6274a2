//! A remote build-artifact cache: write-once, content-addressed blobs behind
//! a bearer-token guard. This crate holds the verified core: key validation,
//! the token registry and its constant-time lookup, the authentication guard,
//! the storage contract with an in-memory backend, the decisions of the HTTP
//! handlers, and the request pipeline that composes them.
pub mod text;
pub mod validation;
pub mod errors;
pub mod tokens;
pub mod auth;
pub mod storage;
pub mod handlers;
pub mod service;
pub mod config;
