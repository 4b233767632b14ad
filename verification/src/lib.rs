//! Metric collection and Prometheus-style text rendering for host statistics.
//!
//! The library turns readings of a host (CPU, disks, memory, network, platform)
//! into metric lines of the text exposition format, or into samples for a
//! metrics registry, and proves what each line and sample holds.

pub mod byte_buffer;
pub mod collectors;
pub mod concat;
pub mod data;
pub mod decimal;
pub mod metrics;
