//! The distance detector.

use vstd::prelude::*;
use crate::detector::distance::config::RadarDistanceConfig;
use crate::detector::distance::results::DetectorDistanceResult;
use crate::detector::distance::results::DistanceResult;
use crate::detector::distance::results::DistanceSizes;
use crate::detector::distance::results::MAX_NUM_DISTANCES;
use crate::detector::detector_directive;
use crate::detector::detector_started;
use crate::memory::DistanceMemoryCalculator;
use crate::memory::MemoryRequirements;
use crate::radar::Radar;
use crate::radar::RadarState;
use crate::radar::Request;
use crate::sensor::error::ProcessDataError;
use crate::sensor::error::SensorError;
use crate::sensor::Directive;
use crate::sensor::Operation;
use crate::sensor::Phase;

/// Settings of the distance detector
pub mod config;
/// Results of the distance detector
pub mod results;

verus! {

/// What the engine reports of one processing call.
#[derive(Debug, Clone, Copy)]
pub struct ProcessReply {
    /// The value that the primitive returned: `true` for success
    pub success: bool,
    /// Whether the call has produced a result
    pub result_available: bool,
    /// What the engine wrote as the result
    pub result: DetectorDistanceResult,
}

/// What processing returns for a reply of the engine: the result that the
/// engine wrote where it reports success and a result, `Unavailable` where
/// it reports success without a result, `ProcessingFailed` where it reports
/// failure.
pub open spec fn process_outcome(reply: ProcessReply) -> Result<(), ProcessDataError> {
    if !reply.success {
        Err(ProcessDataError::ProcessingFailed)
    } else if !reply.result_available {
        Err(ProcessDataError::Unavailable)
    } else {
        Ok(())
    }
}

/// The main structure representing the radar distance detector.
#[derive(Debug)]
pub struct RadarDistanceDetector {
    /// Configuration for the radar distance detection.
    pub config: RadarDistanceConfig,
}

impl RadarDistanceDetector {
    /// Constructs a new radar distance detector with default configuration.
    /// Returns an error if the radar is not in Ready state.
    pub fn new(radar: &Radar) -> (r: Result<Self, SensorError>)
        ensures
            r is Ok <==> radar@.state == RadarState::Ready,
            r is Err ==> r matches Err(SensorError::NotReady),
            r matches Ok(detector) ==> detector.config@
                == crate::detector::distance::config::RadarDistanceConfigView::balanced(),
    {
        if radar.state() != RadarState::Ready {
            return Err(SensorError::NotReady);
        }
        Ok(Self { config: RadarDistanceConfig::default() })
    }

    /// Constructs a new radar distance detector with the provided configuration.
    /// Returns an error if the radar is not in Ready state.
    pub fn with_config(radar: &Radar, config: RadarDistanceConfig) -> (r: Result<
        Self,
        SensorError,
    >)
        ensures
            r is Ok <==> radar@.state == RadarState::Ready,
            r is Err ==> r matches Err(SensorError::NotReady),
            r matches Ok(detector) ==> detector.config == config,
    {
        if radar.state() != RadarState::Ready {
            return Err(SensorError::NotReady);
        }
        Ok(Self { config })
    }

    /// Performs calibration of the radar distance detector.
    ///
    /// The buffers are held against `sizes`, the sizes that the engine
    /// reports for this detector. The calibration is an operation on the
    /// sensor of `radar`: its primitive is called again after each interrupt
    /// until the engine reports completion or failure.
    ///
    /// # Errors
    ///
    /// Answers [`SensorError::BufferTooSmall`] if either buffer is too small;
    /// nothing is started then.
    pub fn calibrate_detector(
        &self,
        radar: &mut Radar,
        sizes: &DistanceSizes,
        buffer: &[u8],
        detector_cal_result_static: &[u8],
    ) -> (directive: Directive)
        ensures
            directive == detector_directive(
                sizes.admits(buffer@.len() as int, detector_cal_result_static@.len() as int),
                old(radar)@.phase,
                Operation::DetectorCalibrate,
                buffer@.len() as usize,
            ),
            final(radar)@ == detector_started(
                old(radar)@,
                sizes.admits(buffer@.len() as int, detector_cal_result_static@.len() as int),
                Operation::DetectorCalibrate,
                buffer@.len() as usize,
            ),
    {
        // Automatic buffer size validation
        if buffer.len() < sizes.buffer_size || detector_cal_result_static.len()
            < sizes.detector_cal_result_static_size {
            return Directive::Done(Err(SensorError::BufferTooSmall));
        }
        self.calibrate_detector_unchecked(
            radar,
            sizes,
            buffer,
            detector_cal_result_static,
        )
    }

    /// Performs calibration without buffer size checks.
    ///
    /// The caller has made sure that both buffers have the sizes that the
    /// engine reports.
    pub fn calibrate_detector_unchecked(
        &self,
        radar: &mut Radar,
        sizes: &DistanceSizes,
        buffer: &[u8],
        detector_cal_result_static: &[u8],
    ) -> (directive: Directive)
        requires
            sizes.admits(buffer@.len() as int, detector_cal_result_static@.len() as int),
        ensures
            directive == old(radar)@.phase.opening_answer(
                Phase::Calling(Operation::DetectorCalibrate, buffer@.len() as usize),
            ),
            final(radar)@ == old(radar)@.started(
                old(radar)@.phase.begun(Operation::DetectorCalibrate, buffer@.len() as usize),
            ),
    {
        radar.begin(Operation::DetectorCalibrate, buffer.len())
    }

    /// Estimates memory requirements for this distance detector configuration.
    ///
    /// This method provides a conservative estimate of memory requirements based on
    /// the radar configuration. It can be called before allocating buffers to ensure
    /// sufficient memory is available.
    pub fn estimate_memory_requirements(&self, radar: &Radar) -> (requirements: MemoryRequirements)
        ensures
            requirements == crate::memory::distance_requirements(radar@.config),
    {
        let calc = DistanceMemoryCalculator::new(radar.config());
        calc.memory_requirements()
    }

    /// Updates the calibration dynamically based on new sensor data.
    ///
    /// This function is intended to be used when a recalibration is necessary due to
    /// changes in the operating environment. The buffer is held against
    /// `sizes`.
    ///
    /// # Errors
    ///
    /// Answers [`SensorError::BufferTooSmall`] if the buffer is too small;
    /// nothing is started then.
    pub fn update_calibration(
        &self,
        radar: &mut Radar,
        sizes: &DistanceSizes,
        buffer: &[u8],
    ) -> (directive: Directive)
        ensures
            directive == detector_directive(
                sizes.admits_buffer(buffer@.len() as int),
                old(radar)@.phase,
                Operation::DetectorUpdateCalibration,
                buffer@.len() as usize,
            ),
            final(radar)@ == detector_started(
                old(radar)@,
                sizes.admits_buffer(buffer@.len() as int),
                Operation::DetectorUpdateCalibration,
                buffer@.len() as usize,
            ),
    {
        // Automatic buffer size validation
        if buffer.len() < sizes.buffer_size {
            return Directive::Done(Err(SensorError::BufferTooSmall));
        }
        self.update_calibration_unchecked(radar, sizes, buffer)
    }

    /// Updates calibration without buffer size checks.
    ///
    /// The caller has made sure that the buffer has the size that the engine
    /// reports.
    pub fn update_calibration_unchecked(
        &self,
        radar: &mut Radar,
        sizes: &DistanceSizes,
        buffer: &[u8],
    ) -> (directive: Directive)
        requires
            sizes.admits_buffer(buffer@.len() as int),
        ensures
            directive == old(radar)@.phase.opening_answer(
                Phase::Calling(Operation::DetectorUpdateCalibration, buffer@.len() as usize),
            ),
            final(radar)@ == old(radar)@.started(
                old(radar)@.phase.begun(
                    Operation::DetectorUpdateCalibration,
                    buffer@.len() as usize,
                ),
            ),
    {
        radar.begin(Operation::DetectorUpdateCalibration, buffer.len())
    }

    /// Prepares the detector for a measurement operation.
    ///
    /// This function must be called before performing a distance measurement to configure
    /// the detector properly. The buffer is held against `sizes`.
    ///
    /// # Errors
    ///
    /// Answers [`SensorError::BufferTooSmall`] if the buffer is too small;
    /// nothing is started then.
    pub fn prepare_detector(
        &self,
        radar: &mut Radar,
        sizes: &DistanceSizes,
        buffer: &[u8],
    ) -> (directive: Directive)
        ensures
            directive == detector_directive(
                sizes.admits_buffer(buffer@.len() as int),
                old(radar)@.phase,
                Operation::DetectorPrepare,
                buffer@.len() as usize,
            ),
            final(radar)@ == detector_started(
                old(radar)@,
                sizes.admits_buffer(buffer@.len() as int),
                Operation::DetectorPrepare,
                buffer@.len() as usize,
            ),
    {
        // Automatic buffer size validation
        if buffer.len() < sizes.buffer_size {
            return Directive::Done(Err(SensorError::BufferTooSmall));
        }
        self.prepare_detector_unchecked(radar, sizes, buffer)
    }

    /// Prepares the detector without buffer size checks.
    ///
    /// The caller has made sure that the buffer has the size that the engine
    /// reports.
    pub fn prepare_detector_unchecked(
        &self,
        radar: &mut Radar,
        sizes: &DistanceSizes,
        buffer: &[u8],
    ) -> (directive: Directive)
        requires
            sizes.admits_buffer(buffer@.len() as int),
        ensures
            directive == old(radar)@.phase.opening_answer(
                Phase::Calling(Operation::DetectorPrepare, buffer@.len() as usize),
            ),
            final(radar)@ == old(radar)@.started(
                old(radar)@.phase.begun(Operation::DetectorPrepare, buffer@.len() as usize),
            ),
    {
        radar.begin(Operation::DetectorPrepare, buffer.len())
    }

    /// Performs a distance measurement operation.
    ///
    /// This function asks the radar for a measurement into `data`.
    pub fn measure(&self, radar: &mut Radar, data: &[u8]) -> (directive: Directive)
        ensures
            final(radar)@ == old(radar)@.requested(Request::Measure(data@.len() as usize)),
            directive == old(radar)@.first_directive(Request::Measure(data@.len() as usize)),
    {
        radar.measure(data)
    }

    /// Calibrates the associated radar.
    ///
    /// This function asks the radar for a calibration of the sensor, necessary
    /// for accurate distance measurements.
    pub fn calibrate(&self, radar: &mut Radar) -> (directive: Directive)
        ensures
            final(radar)@ == old(radar)@.requested(Request::Calibrate),
            directive == old(radar)@.first_directive(Request::Calibrate),
    {
        radar.calibrate()
    }

    /// Admits one call of the processing primitive on the data collected
    /// from a distance measurement operation, once the buffers are found
    /// large enough for `sizes`.
    ///
    /// # Errors
    ///
    /// Returns [`ProcessDataError::BufferTooSmall`] if buffers are too small.
    pub fn process_data(
        &self,
        sizes: &DistanceSizes,
        buffer: &[u8],
        detector_cal_result_static: &[u8],
    ) -> (r: Result<AdmittedProcessing, ProcessDataError>)
        ensures
            r is Ok <==> sizes.admits(
                buffer@.len() as int,
                detector_cal_result_static@.len() as int,
            ),
            r is Err ==> r matches Err(ProcessDataError::BufferTooSmall),
            r matches Ok(admitted) ==> admitted@ == buffer@.len(),
    {
        // Automatic buffer size validation
        if buffer.len() < sizes.buffer_size || detector_cal_result_static.len()
            < sizes.detector_cal_result_static_size {
            return Err(ProcessDataError::BufferTooSmall);
        }
        Ok(self.process_data_unchecked(sizes, buffer, detector_cal_result_static))
    }

    /// Admits one call of the processing primitive without buffer size
    /// checks.
    ///
    /// The caller has made sure that both buffers have the sizes that the
    /// engine reports.
    pub fn process_data_unchecked(
        &self,
        sizes: &DistanceSizes,
        buffer: &[u8],
        detector_cal_result_static: &[u8],
    ) -> (admitted: AdmittedProcessing)
        requires
            sizes.admits(buffer@.len() as int, detector_cal_result_static@.len() as int),
        ensures
            admitted@ == buffer@.len(),
    {
        AdmittedProcessing { buffer_len: buffer.len() }
    }
}

/// One call of the processing primitive that the detector has admitted.
#[derive(Debug)]
pub struct AdmittedProcessing {
    buffer_len: usize,
}

impl View for AdmittedProcessing {
    type V = usize;

    closed spec fn view(&self) -> usize {
        self.buffer_len
    }
}

impl AdmittedProcessing {
    /// The size in bytes of the working buffer that the call is made with.
    pub fn buffer_len(&self) -> (buffer_len: usize)
        ensures
            buffer_len == self@,
    {
        self.buffer_len
    }

    /// Turns what the engine reports of the call into the result of the
    /// detection.
    ///
    /// # Errors
    ///
    /// Returns [`ProcessDataError::ProcessingFailed`] if the engine reports
    /// failure, and [`ProcessDataError::Unavailable`] if it reports success
    /// without a result: the caller is expected to measure again.
    pub fn result(self, reply: &ProcessReply) -> (r: Result<DistanceResult, ProcessDataError>)
        requires
            reply.success && reply.result_available ==> reply.result.num_distances
                <= MAX_NUM_DISTANCES,
        ensures
            match r {
                Ok(result) => process_outcome(*reply) is Ok && result@.detections
                    == reply.result.detections() && result@.near_start_edge_status
                    == reply.result.near_start_edge_status && result@.processing_result
                    == reply.result.status(),
                Err(error) => process_outcome(*reply) == Err::<(), ProcessDataError>(error),
            },
    {
        if reply.success {
            if reply.result_available {
                let mut distance_result = DistanceResult::new();
                distance_result.update_from_detector_result(&reply.result);
                Ok(distance_result)
            } else {
                Err(ProcessDataError::Unavailable)
            }
        } else {
            Err(ProcessDataError::ProcessingFailed)
        }
    }
}

} // verus!
