//! Capability bookkeeping, window extraction and control decisions of a
//! video noise analyzer for v4l2 sources.

pub mod decimal;
pub mod errors;
pub mod capabilities;
pub mod noise_tracking;
pub mod pipeline_control;
pub mod screenshot;
