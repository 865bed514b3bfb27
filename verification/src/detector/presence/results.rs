//! Results of the presence detector.

use vstd::prelude::*;
use crate::config::profile::RadarProfile;
use crate::num::Float32;
use crate::processing::ProcessingResult;

verus! {

/// The bit pattern of the end of the range of a detector that was not
/// created yet: 6 m.
pub const INITIAL_END_BITS: u32 = 0x40c0_0000;

/// What the engine writes when it processes a frame for presence.
#[derive(Debug)]
pub struct DetectorPresenceResult {
    /// true if presence was detected, false otherwise
    pub presence_detected: bool,
    /// A measure of the amount of fast motion detected
    pub intra_presence_score: Float32,
    /// A measure of the amount of slow motion detected
    pub inter_presence_score: Float32,
    /// The distance, in meters, to the detected object
    pub presence_distance: Float32,
    /// The amount of fast motion detected per distance point; empty where
    /// the engine gives none
    pub depthwise_intra_presence_scores: Vec<Float32>,
    /// The amount of slow motion detected per distance point; empty where
    /// the engine gives none
    pub depthwise_inter_presence_scores: Vec<Float32>,
    /// The number of elements that the engine reports for the depthwise
    /// scores
    pub depthwise_presence_scores_length: u32,
    /// Status flags and temperature
    pub processing_result: ProcessingResult,
}

/// Represents the results from a presence detection operation.
#[derive(Debug)]
pub struct PresenceResult {
    /// Whether presence was detected
    pub presence_detected: bool,
    /// Intra-frame presence score (fast movements)
    pub intra_presence_score: Float32,
    /// Inter-frame presence score (slow movements)
    pub inter_presence_score: Float32,
    /// Estimated distance to detected presence in meters
    pub presence_distance: Float32,
    /// Processing result from the radar
    pub processing_result: ProcessingResult,
    /// The depthwise scores of fast movements
    pub depthwise_intra: Vec<Float32>,
    /// The depthwise scores of slow movements
    pub depthwise_inter: Vec<Float32>,
    /// The number of depthwise score points
    pub depthwise_len: usize,
}

impl PresenceResult {
    /// The depthwise scores as they are handed out: none where the number of
    /// score points is zero.
    pub open spec fn handed_out(self, scores: Seq<Float32>) -> Seq<Float32> {
        if self.depthwise_len == 0 {
            Seq::empty()
        } else {
            scores
        }
    }

    /// Whether the result holds what the engine wrote.
    pub open spec fn reports(self, written: DetectorPresenceResult) -> bool {
        &&& self.presence_detected == written.presence_detected
        &&& self.intra_presence_score == written.intra_presence_score
        &&& self.inter_presence_score == written.inter_presence_score
        &&& self.presence_distance == written.presence_distance
        &&& self.processing_result == written.processing_result
        &&& self.depthwise_intra@ == written.depthwise_intra_presence_scores@
        &&& self.depthwise_inter@ == written.depthwise_inter_presence_scores@
        &&& self.depthwise_len == written.depthwise_presence_scores_length
    }

    /// Creates a new empty PresenceResult
    pub fn new() -> (result: Self)
        ensures
            !result.presence_detected,
            result.intra_presence_score.bits == 0,
            result.inter_presence_score.bits == 0,
            result.presence_distance.bits == 0,
            result.processing_result == ProcessingResult::empty(),
            result.depthwise_intra@.len() == 0,
            result.depthwise_inter@.len() == 0,
            result.depthwise_len == 0,
    {
        Self {
            presence_detected: false,
            intra_presence_score: Float32 { bits: 0 },
            inter_presence_score: Float32 { bits: 0 },
            presence_distance: Float32 { bits: 0 },
            processing_result: ProcessingResult::new(),
            depthwise_intra: Vec::new(),
            depthwise_inter: Vec::new(),
            depthwise_len: 0,
        }
    }

    /// Returns the depthwise intra-frame presence scores.
    ///
    /// These scores indicate fast movement detection at each depth point.
    pub fn depthwise_intra_presence_scores(&self) -> (scores: &[Float32])
        ensures
            scores@ == self.handed_out(self.depthwise_intra@),
    {
        if self.depthwise_len == 0 {
            vstd::slice::slice_subrange(self.depthwise_intra.as_slice(), 0, 0)
        } else {
            self.depthwise_intra.as_slice()
        }
    }

    /// Returns the depthwise inter-frame presence scores.
    ///
    /// These scores indicate slow movement detection at each depth point.
    pub fn depthwise_inter_presence_scores(&self) -> (scores: &[Float32])
        ensures
            scores@ == self.handed_out(self.depthwise_inter@),
    {
        if self.depthwise_len == 0 {
            vstd::slice::slice_subrange(self.depthwise_inter.as_slice(), 0, 0)
        } else {
            self.depthwise_inter.as_slice()
        }
    }

    /// Returns the number of depthwise score points
    pub fn depthwise_scores_length(&self) -> (length: usize)
        ensures
            length == self.depthwise_len,
    {
        self.depthwise_len
    }

    /// Updates the presence result with data from the detector.
    pub fn update_from_detector_result(&mut self, result: DetectorPresenceResult)
        ensures
            final(self).reports(result),
    {
        self.presence_detected = result.presence_detected;
        self.intra_presence_score = result.intra_presence_score;
        self.inter_presence_score = result.inter_presence_score;
        self.presence_distance = result.presence_distance;
        self.depthwise_len = result.depthwise_presence_scores_length as usize;
        self.depthwise_intra = result.depthwise_intra_presence_scores;
        self.depthwise_inter = result.depthwise_inter_presence_scores;
        self.processing_result = result.processing_result;
    }
}

impl Default for PresenceResult {
    fn default() -> (result: Self)
        ensures
            !result.presence_detected,
            result.depthwise_len == 0,
            result.processing_result == ProcessingResult::empty(),
    {
        Self::new()
    }
}

/// What the engine tells of a presence detector when it creates one.
#[derive(Debug, Clone, Copy, PartialEq, Eq, Structural)]
pub struct PresenceMetadata {
    /// Actual start point of measurement in m
    pub start_m: Float32,
    /// Actual end point of measurement in m
    pub end_m: Float32,
    /// Actual step length between each data point of the measurement in m
    pub step_length_m: Float32,
    /// Number of data points in measurement
    pub num_points: u16,
    /// The number of the profile used
    pub profile: u32,
}

impl PresenceMetadata {
    /// The metadata of a detector that was not created yet: a range from 0 m
    /// to 6 m without points, and profile 5.
    pub open spec fn initial() -> PresenceMetadata {
        PresenceMetadata {
            start_m: Float32 { bits: 0 },
            end_m: Float32 { bits: INITIAL_END_BITS },
            step_length_m: Float32 { bits: 0 },
            num_points: 0,
            profile: 5,
        }
    }

    /// The profile that the number of the metadata stands for: profile 1
    /// where it stands for none.
    pub open spec fn profile_used(self) -> RadarProfile {
        match RadarProfile::of_number(self.profile) {
            Some(profile) => profile,
            None => RadarProfile::AccProfile1,
        }
    }

    /// Create a new PresenceMetadata for a detector that was not created yet.
    pub fn new() -> (metadata: Self)
        ensures
            metadata == Self::initial(),
    {
        Self {
            start_m: Float32 { bits: 0 },
            end_m: Float32 { bits: INITIAL_END_BITS },
            step_length_m: Float32 { bits: 0 },
            num_points: 0,
            profile: 5,
        }
    }

    /// Actual start point of measurement in m.
    pub fn start_m(&self) -> (start: Float32)
        ensures
            start == self.start_m,
    {
        self.start_m
    }

    /// Actual step length between each data point of the measurement in m.
    pub fn step_length_m(&self) -> (step_length: Float32)
        ensures
            step_length == self.step_length_m,
    {
        self.step_length_m
    }

    /// Number of data points in measurement.
    pub fn num_points(&self) -> (num_points: u16)
        ensures
            num_points == self.num_points,
    {
        self.num_points
    }

    /// Profile used.
    pub fn profile(&self) -> (profile: RadarProfile)
        ensures
            profile == self.profile_used(),
    {
        match RadarProfile::from_ffi(self.profile) {
            Some(profile) => profile,
            None => RadarProfile::AccProfile1,
        }
    }
}

impl Default for PresenceMetadata {
    fn default() -> (metadata: Self)
        ensures
            metadata == Self::initial(),
    {
        Self::new()
    }
}

} // verus!
