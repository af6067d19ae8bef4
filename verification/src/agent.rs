//! The usage agent and its parts.

pub mod batch;
pub mod buffer;
pub mod builder;
pub mod endpoint;
pub mod error;
pub mod report;
pub mod shipper;
pub mod usage_agent;
