//! Results of the engine's signal processing.

use vstd::prelude::*;

/// Metadata of a processing instance
pub mod metadata;

verus! {

/// Result from radar signal processing.
///
/// Contains status flags and sensor temperature. The frame data is not part
/// of it: it lies in the processing buffer, and the detectors take from it
/// what they report.
#[derive(Debug, Clone, Copy, PartialEq, Eq, Structural)]
pub struct ProcessingResult {
    /// Indication of sensor data being saturated, can cause data corruption.
    /// Lower the receiver gain if this indication is set.
    pub data_saturated: bool,
    /// Indication of a delayed frame.
    /// The frame rate might need to be lowered if this indication is set.
    pub frame_delayed: bool,
    /// Indication of calibration needed.
    /// The sensor calibration needs to be redone if this indication is set.
    pub calibration_needed: bool,
    /// Temperature in sensor during measurement (in degree Celsius).
    /// Note that it has poor absolute accuracy and should only be used
    /// for relative temperature measurements.
    pub temperature: i16,
}

impl ProcessingResult {
    /// The result that reports nothing: no flag is set and the temperature is
    /// zero.
    pub open spec fn empty() -> ProcessingResult {
        ProcessingResult {
            data_saturated: false,
            frame_delayed: false,
            calibration_needed: false,
            temperature: 0,
        }
    }

    /// Creates a new ProcessingResult with default values.
    pub fn new() -> (result: Self)
        ensures
            result == Self::empty(),
    {
        Self {
            data_saturated: false,
            frame_delayed: false,
            calibration_needed: false,
            temperature: 0,
        }
    }
}

impl Default for ProcessingResult {
    fn default() -> (result: Self)
        ensures
            result == Self::empty(),
    {
        Self::new()
    }
}

} // verus!
