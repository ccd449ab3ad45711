pub mod digits;
pub mod exporter;
pub mod metrics;
pub mod middleware;
pub mod span;
