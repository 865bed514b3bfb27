//! Errors of the radar as a whole.

use vstd::prelude::*;
use crate::config::error::ConfigError;
use crate::sensor::error::SensorError;

verus! {

/// An error of the sensor or of its configuration.
#[derive(Debug, Clone, Copy, PartialEq, Eq, Structural)]
pub enum RadarError {
    /// An operation on the sensor did not succeed
    SensorError(SensorError),
    /// A setting was rejected
    ConfigError(ConfigError),
}

} // verus!
