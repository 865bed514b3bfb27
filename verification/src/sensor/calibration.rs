//! Calibration results of the sensor.
//!
//! A calibration result is a block of bytes that only the engine can read.
//! The core keeps it, hands it back for preparation, and turns what the
//! engine says of it into typed results.
//!
//! A result can be prepared with once it is validated. The result of a
//! calibration that the engine has just completed is. A result that comes
//! from anywhere else, such as one that was stored away, is not, until the
//! engine has accepted it.

use vstd::prelude::*;
use crate::sensor::error::SensorError;

verus! {

/// The size of a sensor calibration result in bytes.
pub const CAL_RESULT_DATA_SIZE: usize = 240;

/// Information about a calibration.
#[derive(Debug, Clone, Copy, PartialEq, Eq, Structural)]
pub struct CalibrationInfo {
    /// The temperature of the sensor during the calibration
    pub temperature: i16,
}

impl CalibrationInfo {
    /// The temperature of the sensor during the calibration.
    pub fn temperature(&self) -> (temperature: i16)
        ensures
            temperature == self.temperature,
    {
        self.temperature
    }
}

impl Default for CalibrationInfo {
    fn default() -> (info: Self)
        ensures
            info.temperature == 0,
    {
        Self { temperature: 0 }
    }
}

/// The result of a sensor calibration.
#[derive(Debug, Clone, Copy)]
pub struct CalibrationResult {
    data: [u8; 240],
    validated: bool,
}

impl CalibrationResult {
    /// The bytes of the result, as the engine wrote them.
    pub closed spec fn bytes(self) -> Seq<u8> {
        self.data@
    }

    /// Whether the result is validated: the engine has just produced it, or
    /// has accepted it since.
    pub closed spec fn validated(self) -> bool {
        self.validated
    }

    /// An empty calibration result: every byte is zero. It is not validated.
    pub fn new() -> (result: Self)
        ensures
            result.bytes().len() == CAL_RESULT_DATA_SIZE,
            forall|i: int| 0 <= i < CAL_RESULT_DATA_SIZE ==> result.bytes()[i] == 0,
            !result.validated(),
    {
        Self { data: [0u8; 240], validated: false }
    }

    /// The result of a calibration that the engine has just completed. It is
    /// validated.
    pub fn calibrated(data: [u8; 240]) -> (result: Self)
        ensures
            result.bytes() == data@,
            result.validated(),
    {
        Self { data, validated: true }
    }

    /// A result that was stored away. It is not validated.
    pub fn stored(data: [u8; 240]) -> (result: Self)
        ensures
            result.bytes() == data@,
            !result.validated(),
    {
        Self { data, validated: false }
    }

    /// The bytes of the result.
    pub fn data(&self) -> (data: &[u8; 240])
        ensures
            data@ == self.bytes(),
    {
        &self.data
    }

    /// Whether the result is validated.
    pub fn is_validated(&self) -> (validated: bool)
        ensures
            validated == self.validated(),
    {
        self.validated
    }

    /// Validates a calibration result.
    ///
    /// Validity is the engine's to judge. `engine_accepts` is its verdict on
    /// this result, and the result is validated from now on if the engine
    /// accepts it, and not validated if it does not.
    ///
    /// # Returns
    /// `Ok(())` if the calibration result is valid, `Err(CalibrationInvalid)` otherwise.
    pub fn validate_calibration(&mut self, engine_accepts: bool) -> (r: Result<(), SensorError>)
        ensures
            r is Ok <==> engine_accepts,
            r is Err ==> r == Err::<(), SensorError>(SensorError::CalibrationInvalid),
            final(self).validated() == engine_accepts,
            final(self).bytes() == old(self).bytes(),
    {
        self.validated = engine_accepts;
        if engine_accepts {
            Ok(())
        } else {
            Err(SensorError::CalibrationInvalid)
        }
    }

    /// The temperature of the sensor during the calibration.
    ///
    /// `info` is what the engine read from this result, or `None` where it
    /// could not read it.
    pub fn temperature(&self, info: Option<CalibrationInfo>) -> (r: Result<i16, SensorError>)
        ensures
            r == match info {
                Some(found) => Ok::<i16, SensorError>(found.temperature),
                None => Err::<i16, SensorError>(SensorError::CalibrationInfo),
            },
    {
        match info {
            Some(found) => Ok(found.temperature()),
            None => Err(SensorError::CalibrationInfo),
        }
    }
}

impl Default for CalibrationResult {
    fn default() -> (result: Self)
        ensures
            result.bytes().len() == CAL_RESULT_DATA_SIZE,
            forall|i: int| 0 <= i < CAL_RESULT_DATA_SIZE ==> result.bytes()[i] == 0,
            !result.validated(),
    {
        Self::new()
    }
}

} // verus!
