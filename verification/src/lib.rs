//! A unified catalog of AI model metadata.
//!
//! The crate normalizes model listings from a fixed set of heterogeneous
//! providers — clean REST APIs, documentation pages that must be scraped,
//! and static curated template files — into one canonical schema.  The
//! decision logic lives here, verified: capability-inference heuristics,
//! template/live-API reconciliation, the scraping fallback chain, the
//! orchestration of per-provider results, and aggregation and validation
//! of the final document.  Network and filesystem access stay outside.

pub mod collections;
pub mod config;
pub mod fetcher;
pub mod heuristics;
pub mod models;
pub mod output;
pub mod processor;
pub mod providers;
pub mod scrape;
pub mod template;
pub mod text;
pub mod validator;
