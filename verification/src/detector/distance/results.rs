//! Results of the distance detector.

use vstd::prelude::*;
use crate::num::Float32;
use crate::processing::ProcessingResult;

verus! {

/// The highest number of distances in one result.
pub const MAX_NUM_DISTANCES: usize = 10;

/// Represents a single detected distance and its strength.
#[derive(Debug, Copy, Clone, PartialEq, Eq, Structural)]
pub struct Distance {
    /// The estimated distance in meters
    pub distance: Float32,
    /// The estimated strength of the reflector in dB
    pub strength: Float32,
}

impl Default for Distance {
    fn default() -> (distance: Self)
        ensures
            distance == (Distance { distance: Float32 { bits: 0 }, strength: Float32 { bits: 0 } }),
    {
        Distance { distance: Float32 { bits: 0 }, strength: Float32 { bits: 0 } }
    }
}

/// What the engine writes when it processes a frame for distances.
#[derive(Debug, Copy, Clone)]
pub struct DetectorDistanceResult {
    /// Estimated distances in meters
    pub distances: [Float32; 10],
    /// Estimated reflector strengths in dB, one for each distance
    pub strengths: [Float32; 10],
    /// The number of valid distances
    pub num_distances: u8,
    /// Indication of an object close to the start edge, located outside of
    /// the measurement range
    pub near_start_edge_status: bool,
    /// Indication of calibration needed
    pub calibration_needed: bool,
    /// Temperature in sensor during measurement (in degree Celsius)
    pub temperature: i16,
    /// The processing result that the detection is based on, where the
    /// engine gives one
    pub processing_result: Option<ProcessingResult>,
}

impl DetectorDistanceResult {
    /// The detection at `index`: a distance and its strength.
    pub open spec fn detection(self, index: int) -> Distance {
        Distance { distance: self.distances@[index], strength: self.strengths@[index] }
    }

    /// The detections of the result, in the engine's order.
    pub open spec fn detections(self) -> Seq<Distance> {
        Seq::new(self.num_distances as nat, |i: int| self.detection(i))
    }

    /// The status flags and the temperature of the result: those of the
    /// processing result where there is one, else what the result itself
    /// tells.
    pub open spec fn status(self) -> ProcessingResult {
        match self.processing_result {
            Some(result) => result,
            None => ProcessingResult {
                data_saturated: false,
                frame_delayed: false,
                calibration_needed: self.calibration_needed,
                temperature: self.temperature,
            },
        }
    }

    /// A result in which nothing was detected and every value is zero.
    pub fn new() -> (result: Self)
        ensures
            forall|i: int| 0 <= i < MAX_NUM_DISTANCES ==> result.distances@[i].bits == 0,
            forall|i: int| 0 <= i < MAX_NUM_DISTANCES ==> result.strengths@[i].bits == 0,
            result.num_distances == 0,
            !result.near_start_edge_status,
            !result.calibration_needed,
            result.temperature == 0,
            result.processing_result is None,
    {
        Self {
            distances: [Float32 { bits: 0 }; 10],
            strengths: [Float32 { bits: 0 }; 10],
            num_distances: 0,
            near_start_edge_status: false,
            calibration_needed: false,
            temperature: 0,
            processing_result: None,
        }
    }
}

/// What a distance result holds.
pub struct DistanceResultView {
    /// The detections, in the order of the peak sorting method
    pub detections: Seq<Distance>,
    /// Indication of an object close to the start edge
    pub near_start_edge_status: bool,
    /// Status flags and temperature
    pub processing_result: ProcessingResult,
}

/// Encapsulates the results of a distance detection operation.
///
/// This struct contains the distances detected by the radar, along with metadata
/// such as the temperature during the detection and whether calibration is needed.
#[derive(Debug, Clone, Copy)]
pub struct DistanceResult {
    distances: [Distance; 10],
    num_distances: u8,
    near_start_edge_status: bool,
    /// Processing result with status flags and temperature
    processing_result: ProcessingResult,
}

impl View for DistanceResult {
    type V = DistanceResultView;

    closed spec fn view(&self) -> DistanceResultView {
        DistanceResultView {
            detections: self.distances@.take(self.num_distances as int),
            near_start_edge_status: self.near_start_edge_status,
            processing_result: self.processing_result,
        }
    }
}

impl DistanceResult {
    #[verifier::type_invariant]
    spec fn valid(self) -> bool {
        self.num_distances <= MAX_NUM_DISTANCES
    }

    /// Creates a new instance of `DistanceResult`, without detections.
    pub fn new() -> (result: Self)
        ensures
            result@.detections.len() == 0,
            !result@.near_start_edge_status,
            result@.processing_result == ProcessingResult::empty(),
    {
        Self {
            distances: [Distance { distance: Float32 { bits: 0 }, strength: Float32 { bits: 0 } };
                10],
            num_distances: 0,
            near_start_edge_status: false,
            processing_result: ProcessingResult::new(),
        }
    }

    /// Updates the result from what the engine wrote.
    pub fn update_from_detector_result(&mut self, inner: &DetectorDistanceResult)
        requires
            inner.num_distances <= MAX_NUM_DISTANCES,
        ensures
            final(self)@.detections == inner.detections(),
            final(self)@.near_start_edge_status == inner.near_start_edge_status,
            final(self)@.processing_result == inner.status(),
    {
        proof {
            use_type_invariant(&*self);
        }
        let count: usize = inner.num_distances as usize;
        let mut distances = self.distances;
        let mut i: usize = 0;
        while i < count
            invariant
                i <= count,
                count == inner.num_distances,
                count <= MAX_NUM_DISTANCES,
                forall|k: int| 0 <= k < i ==> distances@[k] == inner.detection(k),
            decreases count - i,
        {
            distances[i] = Distance { distance: inner.distances[i], strength: inner.strengths[i] };
            i = i + 1;
        }
        self.num_distances = inner.num_distances;
        self.distances = distances;
        self.near_start_edge_status = inner.near_start_edge_status;
        self.processing_result =
        match inner.processing_result {
            Some(result) => result,
            None => ProcessingResult {
                data_saturated: false,
                frame_delayed: false,
                calibration_needed: inner.calibration_needed,
                temperature: inner.temperature,
            },
        };
        assert(self@.detections =~= inner.detections());
    }

    /// Returns the detected distances.
    pub fn distances(&self) -> (detections: &[Distance])
        ensures
            detections@ == self@.detections,
    {
        proof {
            use_type_invariant(self);
        }
        vstd::slice::slice_subrange(self.distances.as_slice(), 0, self.num_distances as usize)
    }

    /// Returns the near start edge status.
    pub fn near_start_edge_status(&self) -> (status: bool)
        ensures
            status == self@.near_start_edge_status,
    {
        self.near_start_edge_status
    }

    /// Returns whether calibration is needed.
    pub fn calibration_needed(&self) -> (needed: bool)
        ensures
            needed == self@.processing_result.calibration_needed,
    {
        self.processing_result.calibration_needed
    }

    /// Returns the temperature during the detection.
    pub fn temperature(&self) -> (temperature: i16)
        ensures
            temperature == self@.processing_result.temperature,
    {
        self.processing_result.temperature
    }

    /// Returns the number of detected distances.
    pub fn num_distances(&self) -> (count: u8)
        ensures
            count == self@.detections.len(),
            count <= MAX_NUM_DISTANCES,
    {
        proof {
            use_type_invariant(self);
        }
        self.num_distances
    }

    /// Returns the processing result containing status flags and temperature.
    pub fn processing_result(&self) -> (result: &ProcessingResult)
        ensures
            *result == self@.processing_result,
    {
        &self.processing_result
    }
}

/// Represents the dynamic part of the detector calibration result.
///
/// This struct encapsulates the dynamic calibration data that may need to be updated
/// based on temperature changes or other factors.
#[derive(Debug, Clone, Copy)]
pub struct DynamicResult {
    /// The words of the result, as the engine wrote them
    pub data: [u32; 2],
}

impl Default for DynamicResult {
    fn default() -> (result: Self)
        ensures
            result.data@[0] == 0,
            result.data@[1] == 0,
    {
        Self { data: [0u32; 2] }
    }
}

/// Stores sizes related to distance detector operations.
///
/// This struct holds information about the required buffer sizes for distance detection
/// operations, including the static part of the detector calibration result.
#[derive(Debug, Clone, Copy, PartialEq, Eq, Structural)]
pub struct DistanceSizes {
    /// The size that the engine asks of the working buffer
    pub buffer_size: usize,
    /// The size that the engine asks of the static calibration result
    pub detector_cal_result_static_size: usize,
}

impl DistanceSizes {
    /// Whether a working buffer of `buffer_len` bytes is large enough.
    pub open spec fn admits_buffer(self, buffer_len: int) -> bool {
        buffer_len >= self.buffer_size
    }

    /// Whether a working buffer of `buffer_len` bytes and a static
    /// calibration result of `static_len` bytes are both large enough.
    pub open spec fn admits(self, buffer_len: int, static_len: int) -> bool {
        buffer_len >= self.buffer_size && static_len >= self.detector_cal_result_static_size
    }

    /// The sizes that the engine reports for a detector.
    pub fn new(buffer_size: u32, detector_cal_result_static_size: u32) -> (sizes: Self)
        ensures
            sizes.buffer_size == buffer_size,
            sizes.detector_cal_result_static_size == detector_cal_result_static_size,
    {
        Self {
            buffer_size: buffer_size as usize,
            detector_cal_result_static_size: detector_cal_result_static_size as usize,
        }
    }
}

} // verus!
