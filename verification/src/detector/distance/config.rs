//! Distance Detection Module
//!
//! The settings of the distance detector: the interval in which it looks for
//! reflections, the limits on what it chooses for the sensor, and how it
//! tells a reflection from noise.
//!
//! For a detailed description of the algorithm and its parameters, see the Acconeer documentation.

use vstd::prelude::*;
use crate::config::profile::RadarProfile;
use crate::num::Float32;

verus! {

/// Type alias for the signal quality
pub type SignalQuality = Float32;

/// Type alias for the threshold sensitivity
pub type ThresholdSensitivity = Float32;

/// The lowest signal quality that can be set, -10 dB, as a bit pattern.
pub const SIGNAL_QUALITY_MIN_BITS: u32 = 0xc120_0000;

/// The highest signal quality that can be set, 35 dB, as a bit pattern.
pub const SIGNAL_QUALITY_MAX_BITS: u32 = 0x420c_0000;

/// The lowest threshold sensitivity, 0, as a bit pattern.
pub const SENSITIVITY_MIN_BITS: u32 = 0x0000_0000;

/// The highest threshold sensitivity, 1, as a bit pattern.
pub const SENSITIVITY_MAX_BITS: u32 = 0x3f80_0000;

/// The start of the interval of the balanced configuration, 0.2 m, as a bit
/// pattern.
pub const BALANCED_START_BITS: u32 = 0x3e4c_cccd;

/// The end of the interval of the balanced configuration, 3 m, as a bit
/// pattern.
pub const BALANCED_END_BITS: u32 = 0x4040_0000;

/// The threshold sensitivity of the balanced configuration, 0.5, as a bit
/// pattern.
pub const BALANCED_SENSITIVITY_BITS: u32 = 0x3f00_0000;

/// The signal quality of the balanced configuration, 15 dB, as a bit
/// pattern.
pub const BALANCED_SIGNAL_QUALITY_BITS: u32 = 0x4170_0000;

/// Enum representing the reflector shape
#[derive(Debug, Copy, Clone, PartialEq, Eq, Structural)]
pub enum ReflectorShape {
    /// Generic reflector shape
    /// This is the default value and represents any non liquid reflector
    Generic,
    /// Planar reflector shape
    /// This represents a planar reflector, usually water
    Planar,
}

impl ReflectorShape {
    /// The number by which the engine knows the shape.
    pub open spec fn number(self) -> u32 {
        match self {
            ReflectorShape::Generic => 0,
            ReflectorShape::Planar => 1,
        }
    }

    /// The shape that the engine knows by `value`, if there is one.
    pub open spec fn of_number(value: u32) -> Option<ReflectorShape> {
        match value {
            0 => Some(ReflectorShape::Generic),
            1 => Some(ReflectorShape::Planar),
            _ => None,
        }
    }

    /// Converts from FFI value, returning `None` for invalid values.
    pub fn from_ffi(value: u32) -> (shape: Option<Self>)
        ensures
            shape == Self::of_number(value),
    {
        match value {
            0 => Some(Self::Generic),
            1 => Some(Self::Planar),
            _ => None,
        }
    }

    /// Converts to the FFI value.
    pub fn to_ffi(&self) -> (number: u32)
        ensures
            number == self.number(),
    {
        match self {
            ReflectorShape::Generic => 0,
            ReflectorShape::Planar => 1,
        }
    }
}

impl Default for ReflectorShape {
    fn default() -> (shape: Self)
        ensures
            shape == ReflectorShape::Generic,
    {
        ReflectorShape::Generic
    }
}

/// Enum representing the maximum step length
#[derive(Debug, Copy, Clone, PartialEq, Eq, Structural)]
pub enum MaxStepLenght {
    /// Uses the step length based on the profile
    ProfileBased,
    /// Maximum step length in points
    Manual(u16),
}

impl MaxStepLenght {
    /// The limit as the engine takes it: 0 for none.
    pub open spec fn limit(self) -> u16 {
        match self {
            MaxStepLenght::ProfileBased => 0,
            MaxStepLenght::Manual(length) => length,
        }
    }
}

/// Enum representing the peak sorting method
#[derive(Debug, Copy, Clone, PartialEq, Eq, Structural)]
pub enum PeakSortingMethod {
    /// Closest peak sorting method
    Amplitude,
    /// Strongest peak sorting method
    Strength,
}

impl PeakSortingMethod {
    /// The number by which the engine knows the method.
    pub open spec fn number(self) -> u32 {
        match self {
            PeakSortingMethod::Amplitude => 0,
            PeakSortingMethod::Strength => 1,
        }
    }

    /// The method that the engine knows by `value`, if there is one.
    pub open spec fn of_number(value: u32) -> Option<PeakSortingMethod> {
        match value {
            0 => Some(PeakSortingMethod::Amplitude),
            1 => Some(PeakSortingMethod::Strength),
            _ => None,
        }
    }

    /// Converts from FFI value, returning `None` for invalid values.
    pub fn from_ffi(value: u32) -> (method: Option<Self>)
        ensures
            method == Self::of_number(value),
    {
        match value {
            0 => Some(Self::Amplitude),
            1 => Some(Self::Strength),
            _ => None,
        }
    }

    /// Converts to the FFI value.
    pub fn to_ffi(&self) -> (number: u32)
        ensures
            number == self.number(),
    {
        match self {
            PeakSortingMethod::Amplitude => 0,
            PeakSortingMethod::Strength => 1,
        }
    }
}

/// Enum representing the threshold method
#[derive(Debug, Copy, Clone, PartialEq, Eq, Structural)]
pub enum ThresholdMethod {
    /// Fixed amplitude threshold method
    FixedAmplitude(Float32),
    /// Fixed strength threshold method
    FixedStrenght(Float32),
    /// Recorded threshold method, with the number of frames to record
    Recorded(u16),
    /// Constant false alarm rate threshold method
    Cfar,
}

impl ThresholdMethod {
    /// The number by which the engine knows the method.
    pub open spec fn number(self) -> u32 {
        match self {
            ThresholdMethod::FixedAmplitude(_) => 0,
            ThresholdMethod::FixedStrenght(_) => 1,
            ThresholdMethod::Recorded(_) => 2,
            ThresholdMethod::Cfar => 3,
        }
    }

    /// The method that the engine knows by `value`, with the value that
    /// belongs to it: the amplitude, the strength or the number of frames.
    pub open spec fn of_number(
        value: u32,
        amplitude: Float32,
        strength: Float32,
        frames: u16,
    ) -> Option<ThresholdMethod> {
        match value {
            0 => Some(ThresholdMethod::FixedAmplitude(amplitude)),
            1 => Some(ThresholdMethod::FixedStrenght(strength)),
            2 => Some(ThresholdMethod::Recorded(frames)),
            3 => Some(ThresholdMethod::Cfar),
            _ => None,
        }
    }

    /// Converts from the FFI value of the method and the three values that
    /// the engine holds beside it, returning `None` for an invalid method.
    pub fn from_ffi(value: u32, amplitude: Float32, strength: Float32, frames: u16) -> (method:
        Option<Self>)
        ensures
            method == Self::of_number(value, amplitude, strength, frames),
    {
        match value {
            0 => Some(ThresholdMethod::FixedAmplitude(amplitude)),
            1 => Some(ThresholdMethod::FixedStrenght(strength)),
            2 => Some(ThresholdMethod::Recorded(frames)),
            3 => Some(ThresholdMethod::Cfar),
            _ => None,
        }
    }

    /// The fixed amplitude threshold that is set with the method, if it has
    /// one.
    pub fn fixed_amplitude_threshold(&self) -> (value: Option<Float32>)
        ensures
            value == match *self {
                ThresholdMethod::FixedAmplitude(amplitude) => Some(amplitude),
                _ => None,
            },
    {
        match self {
            ThresholdMethod::FixedAmplitude(amplitude) => Some(*amplitude),
            _ => None,
        }
    }

    /// The fixed strength threshold that is set with the method, if it has
    /// one.
    pub fn fixed_strength_threshold(&self) -> (value: Option<Float32>)
        ensures
            value == match *self {
                ThresholdMethod::FixedStrenght(strength) => Some(strength),
                _ => None,
            },
    {
        match self {
            ThresholdMethod::FixedStrenght(strength) => Some(*strength),
            _ => None,
        }
    }

    /// The number of frames for the recorded threshold that is set with the
    /// method, if it has one.
    pub fn num_frames_recorded_threshold(&self) -> (frames: Option<u16>)
        ensures
            frames == match *self {
                ThresholdMethod::Recorded(count) => Some(count),
                _ => None,
            },
    {
        match self {
            ThresholdMethod::Recorded(count) => Some(*count),
            _ => None,
        }
    }

    /// Converts the method, without its value, to the FFI value.
    pub fn to_ffi(&self) -> (number: u32)
        ensures
            number == self.number(),
    {
        match self {
            ThresholdMethod::FixedAmplitude(_) => 0,
            ThresholdMethod::FixedStrenght(_) => 1,
            ThresholdMethod::Recorded(_) => 2,
            ThresholdMethod::Cfar => 3,
        }
    }
}

/// What a distance configuration holds.
pub struct RadarDistanceConfigView {
    /// The id of the sensor, if one was set
    pub sensor: Option<u32>,
    /// The start of the measured interval in meters
    pub start: Float32,
    /// The end of the measured interval in meters
    pub end: Float32,
    /// The upper limit of the step length, 0 for none
    pub max_step_length: u16,
    /// Whether the leakage at close range is cancelled
    pub close_range_leakage_cancellation: bool,
    /// The signal quality in dB
    pub signal_quality: Float32,
    /// The upper limit of the profile
    pub max_profile: RadarProfile,
    /// How a reflection is told from noise
    pub threshold_method: ThresholdMethod,
    /// The sensitivity of the threshold
    pub threshold_sensitivity: Float32,
    /// The order of the estimated distances
    pub peak_sorting: PeakSortingMethod,
    /// The shape of the reflector
    pub reflector_shape: ReflectorShape,
}

impl RadarDistanceConfigView {
    /// The configuration on which nothing has been set: no sensor, an empty
    /// interval at zero, no limit on the step length, profiles up to 5 with a
    /// generic reflector, the strongest peak first, a CFAR threshold, and
    /// zero for the signal quality and the threshold sensitivity.
    pub open spec fn unset() -> Self {
        RadarDistanceConfigView {
            sensor: None,
            start: Float32 { bits: 0 },
            end: Float32 { bits: 0 },
            max_step_length: 0,
            close_range_leakage_cancellation: false,
            signal_quality: Float32 { bits: 0 },
            max_profile: RadarProfile::AccProfile5,
            threshold_method: ThresholdMethod::Cfar,
            threshold_sensitivity: Float32 { bits: 0 },
            peak_sorting: PeakSortingMethod::Strength,
            reflector_shape: ReflectorShape::Generic,
        }
    }

    /// The balanced configuration: 0.2 m to 3 m, step length and profile left
    /// to the detector up to profile 5, a generic reflector, the strongest
    /// peak first, a CFAR threshold of sensitivity 0.5, a signal quality of
    /// 15 dB, and no leakage cancellation.
    pub open spec fn balanced() -> Self {
        RadarDistanceConfigView {
            sensor: None,
            start: Float32 { bits: BALANCED_START_BITS },
            end: Float32 { bits: BALANCED_END_BITS },
            max_step_length: 0,
            close_range_leakage_cancellation: false,
            signal_quality: Float32 { bits: BALANCED_SIGNAL_QUALITY_BITS },
            max_profile: RadarProfile::AccProfile5,
            threshold_method: ThresholdMethod::Cfar,
            threshold_sensitivity: Float32 { bits: BALANCED_SENSITIVITY_BITS },
            peak_sorting: PeakSortingMethod::Strength,
            reflector_shape: ReflectorShape::Generic,
        }
    }
}

/// A signal quality as it is set: held within -10 dB and 35 dB.
pub open spec fn held_signal_quality(signal_quality: Float32) -> Float32 {
    signal_quality.clamped(
        Float32 { bits: SIGNAL_QUALITY_MIN_BITS },
        Float32 { bits: SIGNAL_QUALITY_MAX_BITS },
    )
}

/// A threshold sensitivity as it is set: held within 0 and 1.
pub open spec fn held_sensitivity(sensitivity: Float32) -> Float32 {
    sensitivity.clamped(
        Float32 { bits: SENSITIVITY_MIN_BITS },
        Float32 { bits: SENSITIVITY_MAX_BITS },
    )
}

/// Configuration for the radar distance detection.
///
/// This struct encapsulates all the parameters and settings for configuring
/// the distance detection functionality of the radar.
#[derive(Debug, Clone, Copy)]
pub struct RadarDistanceConfig {
    sensor: Option<u32>,
    start: Float32,
    end: Float32,
    max_step_length: u16,
    close_range_leakage_cancellation: bool,
    signal_quality: Float32,
    max_profile: RadarProfile,
    threshold_method: ThresholdMethod,
    threshold_sensitivity: Float32,
    peak_sorting: PeakSortingMethod,
    reflector_shape: ReflectorShape,
}

impl View for RadarDistanceConfig {
    type V = RadarDistanceConfigView;

    closed spec fn view(&self) -> RadarDistanceConfigView {
        RadarDistanceConfigView {
            sensor: self.sensor,
            start: self.start,
            end: self.end,
            max_step_length: self.max_step_length,
            close_range_leakage_cancellation: self.close_range_leakage_cancellation,
            signal_quality: self.signal_quality,
            max_profile: self.max_profile,
            threshold_method: self.threshold_method,
            threshold_sensitivity: self.threshold_sensitivity,
            peak_sorting: self.peak_sorting,
            reflector_shape: self.reflector_shape,
        }
    }
}

impl Default for RadarDistanceConfig {
    fn default() -> (config: Self)
        ensures
            config@ == RadarDistanceConfigView::balanced(),
    {
        Self::balanced()
    }
}

impl RadarDistanceConfig {
    /// Create a new distance detection configuration, with nothing set on it.
    fn new() -> (config: Self)
        ensures
            config@ == RadarDistanceConfigView::unset(),
    {
        Self {
            sensor: None,
            start: Float32 { bits: 0 },
            end: Float32 { bits: 0 },
            max_step_length: 0,
            close_range_leakage_cancellation: false,
            signal_quality: Float32 { bits: 0 },
            max_profile: RadarProfile::AccProfile5,
            threshold_method: ThresholdMethod::Cfar,
            threshold_sensitivity: Float32 { bits: 0 },
            peak_sorting: PeakSortingMethod::Strength,
            reflector_shape: ReflectorShape::Generic,
        }
    }

    /// Create a balanced distance detection configuration.
    pub fn balanced() -> (config: Self)
        ensures
            config@ == RadarDistanceConfigView::balanced(),
    {
        let mut config = Self::new();
        config.set_interval(
            Float32 { bits: BALANCED_START_BITS },
            Float32 { bits: BALANCED_END_BITS },
        );
        config.set_max_step_length(MaxStepLenght::ProfileBased);
        config.set_max_profile(RadarProfile::AccProfile5);
        config.set_reflector_shape(ReflectorShape::Generic);
        config.set_peak_sorting_method(PeakSortingMethod::Strength);
        config.set_threshold_method(ThresholdMethod::Cfar);
        config.set_threshold_sensitivity(Float32 { bits: BALANCED_SENSITIVITY_BITS });
        config.set_signal_quality(Float32 { bits: BALANCED_SIGNAL_QUALITY_BITS });
        config.set_close_range_leakage_cancelation(false);
        config
    }

    /// Sets the sensor ID to be used for detection.
    pub fn sensor_set(&mut self, sensor_id: u32)
        ensures
            final(self)@ == (RadarDistanceConfigView { sensor: Some(sensor_id), ..old(self)@ }),
    {
        self.sensor = Some(sensor_id);
    }

    /// Returns the sensor ID to be used for detection, if one was set.
    pub fn sensor(&self) -> (sensor_id: Option<u32>)
        ensures
            sensor_id == self@.sensor,
    {
        self.sensor
    }

    /// Configures the measurement interval in meters, from `start` to `end`.
    pub fn set_interval(&mut self, start: Float32, end: Float32)
        ensures
            final(self)@ == (RadarDistanceConfigView { start, end, ..old(self)@ }),
    {
        self.set_start_interval(start);
        self.set_end_interval(end);
    }

    /// Sets the start of the measurement interval in meters.
    pub fn set_start_interval(&mut self, start_interval: Float32)
        ensures
            final(self)@ == (RadarDistanceConfigView { start: start_interval, ..old(self)@ }),
    {
        self.start = start_interval;
    }

    /// Returns the start of the measurement interval in meters.
    pub fn start_interval(&self) -> (start: Float32)
        ensures
            start == self@.start,
    {
        self.start
    }

    /// Sets the end of the measurement interval in meters.
    pub fn set_end_interval(&mut self, end_interval: Float32)
        ensures
            final(self)@ == (RadarDistanceConfigView { end: end_interval, ..old(self)@ }),
    {
        self.end = end_interval;
    }

    /// Returns the end of the measurement interval in meters.
    pub fn end_interval(&self) -> (end: Float32)
        ensures
            end == self@.end,
    {
        self.end
    }

    /// Sets the maximum step length in points.
    /// Using a manual maximum step length can have a big impact on memory usage and performance.
    pub fn set_max_step_length(&mut self, max_step_length: MaxStepLenght)
        ensures
            final(self)@ == (RadarDistanceConfigView {
                max_step_length: max_step_length.limit(),
                ..old(self)@
            }),
    {
        match max_step_length {
            MaxStepLenght::ProfileBased => {
                self.max_step_length = 0;
            },
            MaxStepLenght::Manual(length) => {
                self.max_step_length = length;
            },
        }
    }

    /// Returns the maximum step length in points.
    pub fn max_step_length(&self) -> (length: u16)
        ensures
            length == self@.max_step_length,
    {
        self.max_step_length
    }

    /// Enable or disable close range leakage cancellation.
    /// This feature is used to cancel out the leakage from the close range
    /// (< 100mm from the sensor).
    pub fn set_close_range_leakage_cancelation(&mut self, enable: bool)
        ensures
            final(self)@ == (RadarDistanceConfigView {
                close_range_leakage_cancellation: enable,
                ..old(self)@
            }),
    {
        self.close_range_leakage_cancellation = enable;
    }

    /// Returns the close range leakage cancellation status.
    pub fn close_range_leakage_cancelation(&self) -> (enabled: bool)
        ensures
            enabled == self@.close_range_leakage_cancellation,
    {
        self.close_range_leakage_cancellation
    }

    /// Sets the signal quality in dB, held within -10 dB and 35 dB.
    pub fn set_signal_quality(&mut self, signal_quality: SignalQuality)
        ensures
            final(self)@ == (RadarDistanceConfigView {
                signal_quality: held_signal_quality(signal_quality),
                ..old(self)@
            }),
    {
        self.signal_quality =
        signal_quality.clamp(
            Float32 { bits: SIGNAL_QUALITY_MIN_BITS },
            Float32 { bits: SIGNAL_QUALITY_MAX_BITS },
        );
    }

    /// Returns the signal quality in dB.
    pub fn signal_quality(&self) -> (signal_quality: SignalQuality)
        ensures
            signal_quality == self@.signal_quality,
    {
        self.signal_quality
    }

    /// Sets the maximum profile to use.
    pub fn set_max_profile(&mut self, max_profile: RadarProfile)
        ensures
            final(self)@ == (RadarDistanceConfigView { max_profile, ..old(self)@ }),
    {
        self.max_profile = max_profile;
    }

    /// Returns the maximum profile to use.
    pub fn max_profile(&self) -> (max_profile: RadarProfile)
        ensures
            max_profile == self@.max_profile,
    {
        self.max_profile
    }

    /// Sets the threshold method with the given parameters.
    pub fn set_threshold_method(&mut self, method: ThresholdMethod)
        ensures
            final(self)@ == (RadarDistanceConfigView { threshold_method: method, ..old(self)@ }),
    {
        self.threshold_method = method;
    }

    /// Returns the threshold method.
    pub fn threshold_method(&self) -> (method: ThresholdMethod)
        ensures
            method == self@.threshold_method,
    {
        self.threshold_method
    }

    /// Sets the threshold sensitivity, held within 0 and 1.
    pub fn set_threshold_sensitivity(&mut self, sensitivity: ThresholdSensitivity)
        ensures
            final(self)@ == (RadarDistanceConfigView {
                threshold_sensitivity: held_sensitivity(sensitivity),
                ..old(self)@
            }),
    {
        self.threshold_sensitivity =
        sensitivity.clamp(
            Float32 { bits: SENSITIVITY_MIN_BITS },
            Float32 { bits: SENSITIVITY_MAX_BITS },
        );
    }

    /// Returns the threshold sensitivity.
    pub fn threshold_sensitivity(&self) -> (sensitivity: ThresholdSensitivity)
        ensures
            sensitivity == self@.threshold_sensitivity,
    {
        self.threshold_sensitivity
    }

    /// Sets the peak sorting method.
    pub fn set_peak_sorting_method(&mut self, method: PeakSortingMethod)
        ensures
            final(self)@ == (RadarDistanceConfigView { peak_sorting: method, ..old(self)@ }),
    {
        self.peak_sorting = method;
    }

    /// Returns the peak sorting method.
    pub fn peak_sorting_method(&self) -> (method: PeakSortingMethod)
        ensures
            method == self@.peak_sorting,
    {
        self.peak_sorting
    }

    /// Sets the reflector shape.
    pub fn set_reflector_shape(&mut self, shape: ReflectorShape)
        ensures
            final(self)@ == (RadarDistanceConfigView { reflector_shape: shape, ..old(self)@ }),
    {
        self.reflector_shape = shape;
    }

    /// Returns the reflector shape.
    pub fn reflector_shape(&self) -> (shape: ReflectorShape)
        ensures
            shape == self@.reflector_shape,
    {
        self.reflector_shape
    }
}

} // verus!
