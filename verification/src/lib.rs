//! Client-side usage reporting for a schema registry: the report buffer, the
//! batched report builder, the shipping rules, the agent's configuration, and
//! the supergraph fetcher's conditional-request and failover rules.

pub mod agent;
pub mod duration;
pub mod headers;
pub mod pattern;
pub mod persisted_documents;
pub mod retry;
pub mod supergraph_fetcher;
pub mod text;
