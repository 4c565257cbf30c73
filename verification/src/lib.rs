//! A minimal HTTP server scaffold's request-serving core: static-asset
//! resolution under two interchangeable strategies, template rendering with
//! on-disk overrides over embedded defaults, a monotonic readiness state,
//! a metrics scrape, and the router composing them into one pipeline.

pub mod assets;
pub mod http;
pub mod metrics;
pub mod pipeline;
pub mod readiness;
pub mod routes;
pub mod table;
pub mod templates;
pub mod text;
