//! Metric lines for host readings, written in the text exposition format.

pub mod cpu;
pub mod disk;
pub mod host;
pub mod memory;
pub mod net;
