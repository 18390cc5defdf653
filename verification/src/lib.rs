//! A metrics exporter core: a list of SQL queries is bound to
//! Prometheus gauges, refreshed from query results on every scrape, and
//! replaced as a whole when the configuration changes.

pub mod config;
pub mod db;
pub mod instrument;
pub mod laws;
pub mod metrics;
pub mod refresh;
pub mod reload;
pub mod state;

pub use crate::config::{Config, DatabaseConfig, MetricType, QueryConfig};
