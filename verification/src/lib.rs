//! Short-code allocation and resolution for a URL shortener.
//!
//! The crate holds the decisions of the service: which strings are accepted
//! as long URLs, what a short code looks like, what is asked of the key-value
//! store, what each of its answers leads to and what the client is told.
//! Talking to a real store is left to the caller; an in-memory store with a
//! clock stands in for it here.

pub mod code;
pub mod config;
pub mod response;
pub mod service;
pub mod store;
pub mod validate;
