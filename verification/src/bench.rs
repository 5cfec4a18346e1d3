//! The benchmark harness's own logic: names and keys derived from labels,
//! run configuration and its validation, the load-generator and container
//! commands, the report's schema, and the summary's text helpers.
//!
//! Running containers, talking to hosts and writing files is done by the
//! harness binary around these functions.

pub mod labels;
pub mod schema;
pub mod config;
pub mod commands;
pub mod perf_args;
pub mod template;
pub mod perf_report;
pub mod image_check;
pub mod ordering;
pub mod metrics;
pub mod server_args;
pub mod plan;
pub mod summary;
