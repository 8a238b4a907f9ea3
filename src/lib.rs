//! Discovers the CPU temperature sensor among hardware-monitoring entries and
//! turns its raw readings into the reports sent to a liquid-cooling pump.

pub mod locator;
pub mod pattern;
pub mod telemetry;
pub mod text;
