//! The general service: pairing, settings, alerts and status.

pub mod req;
pub mod res;
