//! Verified core of a four-in-one developer tool server: the decisions,
//! text building and bookkeeping behind its web-scraping bridge, crate
//! advisor, borrow-checker explainer and Rust pattern appliance.
pub mod text;
pub mod timeline;
pub mod explain;
pub mod error;
pub mod appliance;
pub mod crates;
pub mod manifest;
pub mod firecrawl;
pub mod chassis;
