//! Errors of the sensor protocol and of detector processing.

use vstd::prelude::*;

verus! {

/// Why an operation on the sensor did not succeed.
///
/// Every one of these is local and recoverable: an operation that ends in an
/// error leaves the lifecycle where it was.
#[derive(Debug, Copy, Clone, PartialEq, Eq, Structural)]
pub enum SensorError {
    /// The engine rejected a calibration attempt
    CalibrationFailed,
    /// The engine rejected the preparation
    PrepareFailed,
    /// The engine could not start a measurement
    MeasurementError,
    /// The engine could not read the measured data out
    ReadError,
    /// The sensor could not be restored from hibernation
    HibernationOffFailed,
    /// The sensor could not be prepared for hibernation
    HibernationOnFailed,
    /// The engine does not accept a calibration result as valid
    CalibrationInvalid,
    /// The operation was asked for outside the lifecycle state that it needs
    NotReady,
    /// The engine could not read the information of a calibration result
    CalibrationInfo,
    /// Processing succeeded without a result
    ResultNotAvailable,
    /// The engine could not process the data
    ProcessingFailed,
    /// A buffer is shorter than the operation needs
    BufferTooSmall,
    /// The engine could not create one of its objects
    InitFailed,
}

impl SensorError {
    /// The text that describes the error.
    pub open spec fn message(self) -> Seq<char> {
        match self {
            Self::CalibrationFailed => "calibration failed"@,
            Self::PrepareFailed => "sensor preparation failed"@,
            Self::MeasurementError => "measurement error"@,
            Self::ReadError => "read error"@,
            Self::HibernationOffFailed => "failed to exit hibernation"@,
            Self::HibernationOnFailed => "failed to enter hibernation"@,
            Self::CalibrationInvalid => "calibration invalid"@,
            Self::NotReady => "sensor not ready"@,
            Self::CalibrationInfo => "calibration info error"@,
            Self::ResultNotAvailable => "result not available"@,
            Self::ProcessingFailed => "processing failed"@,
            Self::BufferTooSmall => "buffer too small"@,
            Self::InitFailed => "initialization failed"@,
        }
    }

    /// Describes the error in words.
    pub fn to_string(&self) -> (text: String)
        ensures
            text@ == self.message(),
    {
        match self {
            Self::CalibrationFailed => "calibration failed".to_owned(),
            Self::PrepareFailed => "sensor preparation failed".to_owned(),
            Self::MeasurementError => "measurement error".to_owned(),
            Self::ReadError => "read error".to_owned(),
            Self::HibernationOffFailed => "failed to exit hibernation".to_owned(),
            Self::HibernationOnFailed => "failed to enter hibernation".to_owned(),
            Self::CalibrationInvalid => "calibration invalid".to_owned(),
            Self::NotReady => "sensor not ready".to_owned(),
            Self::CalibrationInfo => "calibration info error".to_owned(),
            Self::ResultNotAvailable => "result not available".to_owned(),
            Self::ProcessingFailed => "processing failed".to_owned(),
            Self::BufferTooSmall => "buffer too small".to_owned(),
            Self::InitFailed => "initialization failed".to_owned(),
        }
    }
}

/// Enumerates possible errors that can occur during the processing of radar data.
#[derive(Debug, Copy, Clone, PartialEq, Eq, Structural)]
pub enum ProcessDataError {
    /// Calibration is needed before processing
    CalibrationNeeded,
    /// The processing failed
    ProcessingFailed,
    /// The result is not available
    Unavailable,
    /// One or more buffers are too small
    BufferTooSmall,
}

impl ProcessDataError {
    /// The text that describes the error.
    pub open spec fn message(self) -> Seq<char> {
        match self {
            Self::CalibrationNeeded => "calibration needed"@,
            Self::ProcessingFailed => "processing failed"@,
            Self::Unavailable => "result unavailable"@,
            Self::BufferTooSmall => "buffer too small"@,
        }
    }

    /// Describes the error in words.
    pub fn to_string(&self) -> (text: String)
        ensures
            text@ == self.message(),
    {
        match self {
            Self::CalibrationNeeded => "calibration needed".to_owned(),
            Self::ProcessingFailed => "processing failed".to_owned(),
            Self::Unavailable => "result unavailable".to_owned(),
            Self::BufferTooSmall => "buffer too small".to_owned(),
        }
    }
}

} // verus!
