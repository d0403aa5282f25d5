//! The second data service: heart-rate and step telemetry.

pub mod req;
pub mod res;
