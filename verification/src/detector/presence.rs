//! The presence detector.

use vstd::prelude::*;
use crate::detector::detector_directive;
use crate::detector::detector_started;
use crate::detector::presence::config::PresenceConfig;
use crate::detector::presence::config::PresenceConfigView;
use crate::detector::presence::results::DetectorPresenceResult;
use crate::detector::presence::results::PresenceMetadata;
use crate::detector::presence::results::PresenceResult;
use crate::memory::MemoryRequirements;
use crate::memory::PresenceMemoryCalculator;
use crate::radar::Radar;
use crate::radar::RadarState;
use crate::sensor::error::ProcessDataError;
use crate::sensor::error::SensorError;
use crate::sensor::Directive;
use crate::sensor::Operation;
use crate::sensor::Phase;

/// Settings of the presence detector
pub mod config;
/// Results of the presence detector
pub mod results;

verus! {

/// What the engine reports of one processing call.
#[derive(Debug)]
pub struct ProcessReply {
    /// The value that the primitive returned: `true` for success
    pub success: bool,
    /// What the engine wrote as the result
    pub result: DetectorPresenceResult,
}

/// The presence detector.
#[derive(Debug)]
pub struct PresenceDetector {
    /// What the engine tells of the detector
    pub metadata: PresenceMetadata,
    /// Configuration for the presence detection.
    pub config: PresenceConfig,
}

impl PresenceDetector {
    /// Creates a new presence detector with default configuration.
    /// Returns an error if the radar is not in Ready state.
    pub fn new(radar: &Radar) -> (r: Result<Self, SensorError>)
        ensures
            r is Ok <==> radar@.state == RadarState::Ready,
            r is Err ==> r matches Err(SensorError::NotReady),
            r matches Ok(detector) ==> detector.config@ == PresenceConfigView::unset()
                && detector.metadata == PresenceMetadata::initial(),
    {
        if radar.state() != RadarState::Ready {
            return Err(SensorError::NotReady);
        }
        Ok(Self { metadata: PresenceMetadata::default(), config: PresenceConfig::default() })
    }

    /// Creates a new presence detector with the specified configuration.
    /// Returns an error if the radar is not in Ready state.
    pub fn with_config(radar: &Radar, config: PresenceConfig) -> (r: Result<Self, SensorError>)
        ensures
            r is Ok <==> radar@.state == RadarState::Ready,
            r is Err ==> r matches Err(SensorError::NotReady),
            r matches Ok(detector) ==> detector.config == config && detector.metadata
                == PresenceMetadata::initial(),
    {
        if radar.state() != RadarState::Ready {
            return Err(SensorError::NotReady);
        }
        Ok(Self { metadata: PresenceMetadata::default(), config })
    }

    /// What the engine tells of the detector.
    pub fn presence_metadata(&self) -> (metadata: &PresenceMetadata)
        ensures
            *metadata == self.metadata,
    {
        &self.metadata
    }

    /// Prepares the presence detector for measurements.
    ///
    /// The buffer is held against `buffer_size`, the size that the engine
    /// reports for this detector.
    ///
    /// # Errors
    ///
    /// Answers [`SensorError::BufferTooSmall`] if the buffer is too small;
    /// nothing is started then.
    pub fn prepare_detector(
        &self,
        radar: &mut Radar,
        buffer_size: usize,
        buffer: &[u8],
    ) -> (directive: Directive)
        ensures
            directive == detector_directive(
                buffer@.len() >= buffer_size,
                old(radar)@.phase,
                Operation::DetectorPrepare,
                buffer@.len() as usize,
            ),
            final(radar)@ == detector_started(
                old(radar)@,
                buffer@.len() >= buffer_size,
                Operation::DetectorPrepare,
                buffer@.len() as usize,
            ),
    {
        // Automatic buffer size validation
        if buffer.len() < buffer_size {
            return Directive::Done(Err(SensorError::BufferTooSmall));
        }
        self.prepare_detector_unchecked(radar, buffer_size, buffer)
    }

    /// Prepares the detector without buffer size checks.
    ///
    /// The caller has made sure that the buffer has the size that the engine
    /// reports.
    pub fn prepare_detector_unchecked(
        &self,
        radar: &mut Radar,
        buffer_size: usize,
        buffer: &[u8],
    ) -> (directive: Directive)
        requires
            buffer@.len() >= buffer_size,
        ensures
            directive == old(radar)@.phase.opening_answer(
                Phase::Calling(Operation::DetectorPrepare, buffer@.len() as usize),
            ),
            final(radar)@ == old(radar)@.started(
                old(radar)@.phase.begun(Operation::DetectorPrepare, buffer@.len() as usize),
            ),
    {
        radar.begin(Operation::DetectorPrepare, buffer.len())
    }

    /// Estimates memory requirements for this presence detector configuration.
    ///
    /// This method provides a conservative estimate of memory requirements based on
    /// the radar configuration. It can be called before allocating buffers to ensure
    /// sufficient memory is available.
    pub fn estimate_memory_requirements(&self, radar: &Radar) -> (requirements: MemoryRequirements)
        ensures
            requirements == crate::memory::presence_requirements(radar@.config),
    {
        let calc = PresenceMemoryCalculator::new(radar.config());
        calc.memory_requirements()
    }

    /// Admits one call of the processing primitive on a frame, once the
    /// buffer is found large enough for `buffer_size`.
    ///
    /// # Errors
    ///
    /// Returns [`ProcessDataError::BufferTooSmall`] if buffer is too small.
    pub fn detect_presence(&self, buffer_size: usize, buffer: &[u8]) -> (r: Result<
        AdmittedProcessing,
        ProcessDataError,
    >)
        ensures
            r is Ok <==> buffer@.len() >= buffer_size,
            r is Err ==> r matches Err(ProcessDataError::BufferTooSmall),
            r matches Ok(admitted) ==> admitted@ == buffer@.len(),
    {
        // Automatic buffer size validation
        if buffer.len() < buffer_size {
            return Err(ProcessDataError::BufferTooSmall);
        }
        Ok(self.detect_presence_unchecked(buffer_size, buffer))
    }

    /// Admits one call of the processing primitive without buffer size
    /// checks.
    ///
    /// The caller has made sure that the buffer has the size that the engine
    /// reports.
    pub fn detect_presence_unchecked(&self, buffer_size: usize, buffer: &[u8]) -> (admitted:
        AdmittedProcessing)
        requires
            buffer@.len() >= buffer_size,
        ensures
            admitted@ == buffer@.len(),
    {
        AdmittedProcessing { buffer_len: buffer.len() }
    }
}

/// One call of the processing primitive that the detector has admitted.
#[derive(Debug)]
pub struct AdmittedProcessing {
    buffer_len: usize,
}

impl View for AdmittedProcessing {
    type V = usize;

    closed spec fn view(&self) -> usize {
        self.buffer_len
    }
}

impl AdmittedProcessing {
    /// The size in bytes of the working buffer that the call is made with.
    pub fn buffer_len(&self) -> (buffer_len: usize)
        ensures
            buffer_len == self@,
    {
        self.buffer_len
    }

    /// Turns what the engine reports of the call into the result of the
    /// detection.
    ///
    /// # Errors
    ///
    /// Returns [`ProcessDataError::ProcessingFailed`] if the engine reports
    /// failure.
    pub fn result(self, reply: ProcessReply) -> (r: Result<PresenceResult, ProcessDataError>)
        ensures
            r is Ok <==> reply.success,
            r is Err ==> r matches Err(ProcessDataError::ProcessingFailed),
            r matches Ok(result) ==> result.reports(reply.result),
    {
        if reply.success {
            let mut result = PresenceResult::new();
            result.update_from_detector_result(reply.result);
            Ok(result)
        } else {
            Err(ProcessDataError::ProcessingFailed)
        }
    }
}

} // verus!
