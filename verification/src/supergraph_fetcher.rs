//! Fetching a supergraph from one of several mirrors, with conditional
//! requests.
//!
//! The fetcher does not send anything. Its host calls the endpoints, through
//! their circuit breakers, and tells the fetcher what came of each call; the
//! fetcher says which endpoint is next, what to send, and what the fetch
//! comes to.

pub mod builder;
pub mod error;
pub mod fetch;
