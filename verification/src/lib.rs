//! Verified core of a small set of web, metrics and monitoring services: configuration
//! defaults, request metrics, the metrics report, service pages and received text.

pub mod config;
pub mod metrics;
pub mod pages;
pub mod text;
