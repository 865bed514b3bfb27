//! Presence Detection Module
//!
//! The settings of the presence detector. A setting that was never set is
//! left to the engine: the configuration holds nothing for it.
//!
//! For a detailed description of the algorithm and its parameters, see the Acconeer documentation.

use vstd::prelude::*;
use crate::config::profile::RadarProfile;
use crate::num::Float32;

verus! {

/// Type alias for the signal quality
pub type SignalQuality = Float32;

/// What a presence configuration holds: for each setting the value that was
/// set, if one was.
pub struct PresenceConfigView {
    /// The start of the measured range in meters
    pub start: Option<Float32>,
    /// The end of the measured range in meters
    pub end: Option<Float32>,
    /// The step length that was set by hand
    pub step_length: Option<u16>,
    /// Whether the step length is chosen from the profile
    pub auto_step_length: Option<bool>,
    /// The id of the sensor
    pub sensor: Option<u32>,
    /// Whether the profile is chosen from the range
    pub auto_profile: Option<bool>,
    /// The profile
    pub profile: Option<RadarProfile>,
    /// The frame rate in Hz
    pub frame_rate: Option<Float32>,
    /// Whether the filters are reset when the detector is prepared
    pub reset_filters_on_prepare: Option<bool>,
    /// The threshold for fast movements
    pub intra_detection_threshold: Option<Float32>,
    /// The threshold for slow movements
    pub inter_detection_threshold: Option<Float32>,
    /// Whether fast movements are detected
    pub intra_detection: Option<bool>,
    /// Whether slow movements are detected
    pub inter_detection: Option<bool>,
}

impl PresenceConfigView {
    /// The configuration on which nothing has been set.
    pub open spec fn unset() -> Self {
        PresenceConfigView {
            start: None,
            end: None,
            step_length: None,
            auto_step_length: None,
            sensor: None,
            auto_profile: None,
            profile: None,
            frame_rate: None,
            reset_filters_on_prepare: None,
            intra_detection_threshold: None,
            inter_detection_threshold: None,
            intra_detection: None,
            inter_detection: None,
        }
    }

    /// The configuration after a step length was asked for: a length by hand
    /// sets the length and switches the choice from the profile off, none
    /// switches that choice on and leaves the length as it was.
    pub open spec fn with_step_length(self, step_length: Option<u16>) -> Self {
        match step_length {
            Some(length) => PresenceConfigView {
                step_length: Some(length),
                auto_step_length: Some(false),
                ..self
            },
            None => PresenceConfigView { auto_step_length: Some(true), ..self },
        }
    }
}

/// Configuration for the radar presence detection.
#[derive(Debug, Clone, Copy)]
pub struct PresenceConfig {
    start: Option<Float32>,
    end: Option<Float32>,
    step_length: Option<u16>,
    auto_step_length: Option<bool>,
    sensor: Option<u32>,
    auto_profile: Option<bool>,
    profile: Option<RadarProfile>,
    frame_rate: Option<Float32>,
    reset_filters_on_prepare: Option<bool>,
    intra_detection_threshold: Option<Float32>,
    inter_detection_threshold: Option<Float32>,
    intra_detection: Option<bool>,
    inter_detection: Option<bool>,
}

impl View for PresenceConfig {
    type V = PresenceConfigView;

    closed spec fn view(&self) -> PresenceConfigView {
        PresenceConfigView {
            start: self.start,
            end: self.end,
            step_length: self.step_length,
            auto_step_length: self.auto_step_length,
            sensor: self.sensor,
            auto_profile: self.auto_profile,
            profile: self.profile,
            frame_rate: self.frame_rate,
            reset_filters_on_prepare: self.reset_filters_on_prepare,
            intra_detection_threshold: self.intra_detection_threshold,
            inter_detection_threshold: self.inter_detection_threshold,
            intra_detection: self.intra_detection,
            inter_detection: self.inter_detection,
        }
    }
}

impl Default for PresenceConfig {
    fn default() -> (config: Self)
        ensures
            config@ == PresenceConfigView::unset(),
    {
        Self {
            start: None,
            end: None,
            step_length: None,
            auto_step_length: None,
            sensor: None,
            auto_profile: None,
            profile: None,
            frame_rate: None,
            reset_filters_on_prepare: None,
            intra_detection_threshold: None,
            inter_detection_threshold: None,
            intra_detection: None,
            inter_detection: None,
        }
    }
}

impl PresenceConfig {
    /// Sets the measurement range in meters, from `start` to `end`.
    pub fn set_range(&mut self, start: Float32, end: Float32)
        ensures
            final(self)@ == (PresenceConfigView {
                start: Some(start),
                end: Some(end),
                ..old(self)@
            }),
    {
        self.start = Some(start);
        self.end = Some(end);
    }

    /// The measurement range in meters, if one was set: its start and its
    /// end.
    pub fn range(&self) -> (range: (Option<Float32>, Option<Float32>))
        ensures
            range == (self@.start, self@.end),
    {
        (self.start, self.end)
    }

    /// Sets the step length based on profile or manually.
    ///
    /// Pass `Some(length)` for manual step length, or `None` for automatic.
    pub fn set_step_length(&mut self, step_length: Option<u16>)
        ensures
            final(self)@ == old(self)@.with_step_length(step_length),
    {
        match step_length {
            Some(length) => {
                self.step_length = Some(length);
                self.auto_step_length = Some(false);
            },
            None => {
                self.auto_step_length = Some(true);
            },
        }
    }

    /// The step length that was set by hand, if one was.
    pub fn step_length(&self) -> (step_length: Option<u16>)
        ensures
            step_length == self@.step_length,
    {
        self.step_length
    }

    /// Whether the step length is chosen from the profile, if that was set.
    pub fn auto_step_length(&self) -> (auto_step_length: Option<bool>)
        ensures
            auto_step_length == self@.auto_step_length,
    {
        self.auto_step_length
    }

    /// Sets the sensor ID.
    pub fn set_sensor(&mut self, sensor_id: u32)
        ensures
            final(self)@ == (PresenceConfigView { sensor: Some(sensor_id), ..old(self)@ }),
    {
        self.sensor = Some(sensor_id);
    }

    /// The sensor ID, if one was set.
    pub fn sensor(&self) -> (sensor_id: Option<u32>)
        ensures
            sensor_id == self@.sensor,
    {
        self.sensor
    }

    /// Enables or disables automatic profile selection.
    pub fn set_auto_profile(&mut self, enable: bool)
        ensures
            final(self)@ == (PresenceConfigView { auto_profile: Some(enable), ..old(self)@ }),
    {
        self.auto_profile = Some(enable);
    }

    /// Whether the profile is selected automatically, if that was set.
    pub fn auto_profile(&self) -> (auto_profile: Option<bool>)
        ensures
            auto_profile == self@.auto_profile,
    {
        self.auto_profile
    }

    /// Sets the profile for presence detection.
    pub fn set_profile(&mut self, profile: RadarProfile)
        ensures
            final(self)@ == (PresenceConfigView { profile: Some(profile), ..old(self)@ }),
    {
        self.profile = Some(profile);
    }

    /// The profile for presence detection, if one was set.
    pub fn profile(&self) -> (profile: Option<RadarProfile>)
        ensures
            profile == self@.profile,
    {
        self.profile
    }

    /// Configures frame rate for presence detection.
    pub fn set_frame_rate(&mut self, frame_rate: Float32)
        ensures
            final(self)@ == (PresenceConfigView { frame_rate: Some(frame_rate), ..old(self)@ }),
    {
        self.frame_rate = Some(frame_rate);
    }

    /// The frame rate for presence detection, if one was set.
    pub fn frame_rate(&self) -> (frame_rate: Option<Float32>)
        ensures
            frame_rate == self@.frame_rate,
    {
        self.frame_rate
    }

    /// Enables or disables filter reset on prepare.
    pub fn set_reset_filters_on_prepare(&mut self, enable: bool)
        ensures
            final(self)@ == (PresenceConfigView {
                reset_filters_on_prepare: Some(enable),
                ..old(self)@
            }),
    {
        self.reset_filters_on_prepare = Some(enable);
    }

    /// Whether the filters are reset on prepare, if that was set.
    pub fn reset_filters_on_prepare(&self) -> (enable: Option<bool>)
        ensures
            enable == self@.reset_filters_on_prepare,
    {
        self.reset_filters_on_prepare
    }

    /// Configures detection thresholds for fast and slow movements.
    ///
    /// # Arguments
    /// * `intra` - Threshold for intra-frame (fast) movement detection
    /// * `inter` - Threshold for inter-frame (slow) movement detection
    pub fn set_detection_thresholds(&mut self, intra: Float32, inter: Float32)
        ensures
            final(self)@ == (PresenceConfigView {
                intra_detection_threshold: Some(intra),
                inter_detection_threshold: Some(inter),
                ..old(self)@
            }),
    {
        self.intra_detection_threshold = Some(intra);
        self.inter_detection_threshold = Some(inter);
    }

    /// The detection thresholds, if they were set: for fast and for slow
    /// movements.
    pub fn detection_thresholds(&self) -> (thresholds: (Option<Float32>, Option<Float32>))
        ensures
            thresholds == (self@.intra_detection_threshold, self@.inter_detection_threshold),
    {
        (self.intra_detection_threshold, self.inter_detection_threshold)
    }

    /// Enables or disables intra-frame and inter-frame detection.
    ///
    /// # Arguments
    /// * `intra_enable` - Enable intra-frame (fast movement) detection
    /// * `inter_enable` - Enable inter-frame (slow movement) detection
    pub fn set_detection_enabled(&mut self, intra_enable: bool, inter_enable: bool)
        ensures
            final(self)@ == (PresenceConfigView {
                intra_detection: Some(intra_enable),
                inter_detection: Some(inter_enable),
                ..old(self)@
            }),
    {
        self.intra_detection = Some(intra_enable);
        self.inter_detection = Some(inter_enable);
    }

    /// Whether detection is enabled, if that was set: of fast and of slow
    /// movements.
    pub fn detection_enabled(&self) -> (enabled: (Option<bool>, Option<bool>))
        ensures
            enabled == (self@.intra_detection, self@.inter_detection),
    {
        (self.intra_detection, self.inter_detection)
    }
}

} // verus!
