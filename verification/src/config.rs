//! Configuration of the radar sensor.
//!
//! A [`RadarConfig`] is the host's record of the settings of one engine
//! configuration: the settings of the frame, and for each of up to
//! [`MAX_NUM_SUBSWEEPS`] subsweeps the settings of its sweep. The settings
//! that are asked of the configuration itself are those of its first
//! subsweep.
//!
//! A new record is empty. What the engine starts a configuration with is the
//! engine's to tell: the driver reads it from the engine's object and sets
//! it on the record.
//!
//! Most settings are taken as they come. The rules are few: a configuration
//! has at least one subsweep, a sweep rate is above zero, and continuous
//! sweep mode can be switched on only while the frame rate is unlimited, the
//! sweep rate is above zero, and the sensor idles in the same state between
//! frames as between sweeps. A setting that breaks a rule is rejected and
//! leaves the configuration as it was, whether it is asked for on its own or
//! as part of a sweep mode.

use vstd::prelude::*;
use crate::config::error::ConfigError;
use crate::config::frame_rate::FrameRate;
use crate::config::hwaas::Hwaas;
use crate::config::prf::PulseRepetitionFrequency;
use crate::config::profile::RadarProfile;
use crate::config::subsweep::Subsweep;
use crate::num::Float32;

/// Module for radar configuration errors
pub mod error;
/// Module for frame rate values
pub mod frame_rate;
/// Module for hardware accelerated average samples (HWAAS) values
pub mod hwaas;
/// Module for Pulse Repetition Frequency (PRF) values
pub mod prf;
/// Module for radar profiles
pub mod profile;
/// Module for subsweep configuration
pub mod subsweep;

verus! {

/// The maximum number of subsweeps in a configuration.
pub const MAX_NUM_SUBSWEEPS: u8 = 4;

/// Idle states for the radar sensor between sweeps or frames.
#[derive(Debug, Clone, Copy, PartialEq, Eq, Structural)]
pub enum RadarIdleState {
    /// Deep sleep state for maximum power saving.
    DeepSleep,
    /// Sleep state with reduced power consumption.
    Sleep,
    /// Ready state for quick start of operations.
    Ready,
}

impl RadarIdleState {
    /// The number by which the engine knows the state: 0 for the deepest.
    pub open spec fn number(self) -> u32 {
        match self {
            RadarIdleState::DeepSleep => 0,
            RadarIdleState::Sleep => 1,
            RadarIdleState::Ready => 2,
        }
    }

    /// The state that the engine knows by `value`, if there is one.
    pub open spec fn of_number(value: u32) -> Option<RadarIdleState> {
        match value {
            0 => Some(RadarIdleState::DeepSleep),
            1 => Some(RadarIdleState::Sleep),
            2 => Some(RadarIdleState::Ready),
            _ => None,
        }
    }

    /// Converts from FFI value, returning `None` for invalid values.
    pub fn from_ffi(value: u32) -> (state: Option<Self>)
        ensures
            state == Self::of_number(value),
    {
        match value {
            0 => Some(Self::DeepSleep),
            1 => Some(Self::Sleep),
            2 => Some(Self::Ready),
            _ => None,
        }
    }

    /// Converts to the FFI value.
    pub fn to_ffi(&self) -> (number: u32)
        ensures
            number == self.number(),
    {
        match self {
            RadarIdleState::DeepSleep => 0,
            RadarIdleState::Sleep => 1,
            RadarIdleState::Ready => 2,
        }
    }
}

/// Enum representing different sweep modes for the radar sensor.
#[derive(Debug, Clone, Copy, PartialEq, Eq, Structural)]
pub enum SweepMode {
    /// Continuous sweep mode with specified constraints.
    Continuous {
        /// Sweep rate in Hz, a number above zero
        sweep_rate: Float32,
    },
    /// Non-continuous (or discrete) sweep mode with different settings.
    Discrete {
        /// Frame rate in Hz
        frame_rate: FrameRate,
        /// Number of sweeps per frame
        sweeps_per_frame: u16,
    },
}

/// The settings of one subsweep.
#[derive(Debug, Clone, Copy, PartialEq, Eq, Structural)]
pub struct SubsweepSettings {
    /// The starting point of the sweep, in points of about 2.5 mm
    pub start_point: i32,
    /// The number of data points to measure
    pub num_points: u16,
    /// The number of steps between two data points
    pub step_length: u16,
    /// The profile of the RX and TX paths
    pub profile: RadarProfile,
    /// Hardware accelerated average samples
    pub hwaas: Hwaas,
    /// The receiver gain, 0 for the lowest and 23 for the highest
    pub receiver_gain: u8,
    /// Whether the transmitter is enabled
    pub enable_tx: bool,
    /// The pulse repetition frequency
    pub prf: PulseRepetitionFrequency,
    /// Whether the phase of the data is enhanced
    pub phase_enhancement: bool,
    /// Whether loopback is enabled
    pub enable_loopback: bool,
}

/// The settings of a subsweep in an empty record: every number is zero,
/// every switch is off, and the profile and the pulse repetition frequency
/// are the first of their kind.
pub open spec fn initial_subsweep() -> SubsweepSettings {
    SubsweepSettings {
        start_point: 0,
        num_points: 0,
        step_length: 0,
        profile: RadarProfile::AccProfile1,
        hwaas: Hwaas(0),
        receiver_gain: 0,
        enable_tx: false,
        prf: PulseRepetitionFrequency::Prf19_5Mhz,
        phase_enhancement: false,
        enable_loopback: false,
    }
}

/// What a radar configuration holds.
pub struct RadarConfigView {
    /// The number of sweeps in a frame
    pub sweeps_per_frame: u16,
    /// The sweep rate in Hz, zero for the highest
    pub sweep_rate: Float32,
    /// The frame rate in Hz, zero for no limit
    pub frame_rate: Float32,
    /// Whether the timing is the same over all sweeps
    pub continuous_sweep_mode: bool,
    /// Whether the sensor buffer is split in two halves
    pub double_buffering: bool,
    /// The state in which the sensor idles between frames
    pub inter_frame_idle_state: RadarIdleState,
    /// The state in which the sensor idles between the sweeps of a frame
    pub inter_sweep_idle_state: RadarIdleState,
    /// How many of the subsweeps are in use
    pub num_subsweeps: u8,
    /// The settings of each subsweep
    pub subsweeps: Seq<SubsweepSettings>,
}

impl RadarConfigView {
    /// A configuration has room for `MAX_NUM_SUBSWEEPS` subsweeps and uses at
    /// least one of them.
    pub open spec fn well_formed(self) -> bool {
        &&& self.subsweeps.len() == MAX_NUM_SUBSWEEPS
        &&& 1 <= self.num_subsweeps <= MAX_NUM_SUBSWEEPS
    }

    /// The configuration with other settings for the subsweep `index`.
    pub open spec fn with_subsweep(self, index: int, settings: SubsweepSettings) -> Self {
        RadarConfigView { subsweeps: self.subsweeps.update(index, settings), ..self }
    }

    /// The empty record: one subsweep in use, the least that a configuration
    /// has; every number zero and every switch off; deep sleep between
    /// frames and between sweeps.
    pub open spec fn initial() -> Self {
        RadarConfigView {
            sweeps_per_frame: 0,
            sweep_rate: Float32 { bits: 0 },
            frame_rate: Float32 { bits: 0 },
            continuous_sweep_mode: false,
            double_buffering: false,
            inter_frame_idle_state: RadarIdleState::DeepSleep,
            inter_sweep_idle_state: RadarIdleState::DeepSleep,
            num_subsweeps: 1,
            subsweeps: Seq::new(MAX_NUM_SUBSWEEPS as nat, |i: int| initial_subsweep()),
        }
    }

    /// The frame rate, read as a limit or as none.
    pub open spec fn frame_rate_limit(self) -> FrameRate {
        if self.frame_rate.zero() {
            FrameRate::Unlimited
        } else {
            FrameRate::Limited(self.frame_rate)
        }
    }

    /// Whether continuous sweep mode can be switched on: the frame rate is
    /// unlimited, the sweep rate is above zero, and the sensor idles in the
    /// same state between frames as between sweeps.
    pub open spec fn admits_continuous_sweep_mode(self) -> bool {
        &&& self.frame_rate.zero()
        &&& self.sweep_rate.positive()
        &&& self.inter_frame_idle_state == self.inter_sweep_idle_state
    }

    /// The configuration after a request to switch continuous sweep mode on or
    /// off.
    pub open spec fn after_continuous_sweep_mode(self, enabled: bool) -> Self {
        if enabled && !self.admits_continuous_sweep_mode() {
            self
        } else {
            RadarConfigView { continuous_sweep_mode: enabled, ..self }
        }
    }

    /// The configuration after a request for a sweep mode: as it was where
    /// the request is rejected, else with the settings of the mode.
    pub open spec fn after_sweep_mode(self, sweep_mode: SweepMode) -> Self {
        if sweep_mode_result(self, sweep_mode) is Err {
            self
        } else {
            match sweep_mode {
                SweepMode::Continuous { sweep_rate } => RadarConfigView {
                    continuous_sweep_mode: true,
                    sweep_rate,
                    ..self
                },
                SweepMode::Discrete { frame_rate, sweeps_per_frame } => RadarConfigView {
                    continuous_sweep_mode: false,
                    frame_rate: frame_rate.rate(),
                    sweeps_per_frame,
                    ..self
                },
            }
        }
    }
}

/// Whether a sweep rate can be set: it is a number above zero.
pub open spec fn valid_sweep_rate(sweep_rate: Float32) -> bool {
    sweep_rate.positive()
}

/// What a request for a sweep mode returns on a configuration. Continuous
/// mode is rejected with `ContinuousSweepMode` where the configuration does
/// not admit it, and with `SweepRate` where it does and the rate that is
/// asked for is not above zero. Discrete mode is never rejected.
pub open spec fn sweep_mode_result(config: RadarConfigView, sweep_mode: SweepMode) -> Result<
    (),
    ConfigError,
> {
    match sweep_mode {
        SweepMode::Continuous { sweep_rate } => {
            if !config.admits_continuous_sweep_mode() {
                Err(ConfigError::ContinuousSweepMode)
            } else if !valid_sweep_rate(sweep_rate) {
                Err(ConfigError::SweepRate)
            } else {
                Ok(())
            }
        },
        SweepMode::Discrete { .. } => Ok(()),
    }
}

/// A sweep mode that is rejected changes nothing: continuous sweep mode is
/// on or off as before, and the sweep rate is the one that the configuration
/// had.
pub proof fn lemma_rejected_sweep_mode_changes_nothing(
    config: RadarConfigView,
    sweep_mode: SweepMode,
)
    requires
        sweep_mode_result(config, sweep_mode) is Err,
    ensures
        config.after_sweep_mode(sweep_mode) == config,
        sweep_mode is Continuous,
{
}

/// Continuous sweep mode is switched on only with a sweep rate above zero:
/// where the stored rate is zero, has a sign or is not a number, the request
/// is rejected and changes nothing.
pub proof fn lemma_continuous_mode_needs_positive_rate(config: RadarConfigView)
    requires
        config.sweep_rate.zero() || config.sweep_rate.negative()
            || config.sweep_rate.not_a_number(),
    ensures
        !config.admits_continuous_sweep_mode(),
        config.after_continuous_sweep_mode(true) == config,
{
}

/// While the frame rate is limited, continuous sweep mode cannot be switched
/// on: the request is rejected, on its own as within a sweep mode, and the
/// configuration stays as it was, with continuous sweep mode on or off as
/// before.
pub proof fn lemma_limited_frame_rate_blocks_continuous_mode(
    config: RadarConfigView,
    sweep_rate: Float32,
)
    requires
        config.frame_rate_limit() is Limited,
    ensures
        !config.admits_continuous_sweep_mode(),
        config.after_continuous_sweep_mode(true) == config,
        config.after_continuous_sweep_mode(true).continuous_sweep_mode
            == config.continuous_sweep_mode,
        sweep_mode_result(config, SweepMode::Continuous { sweep_rate }) == Err::<(), ConfigError>(
            ConfigError::ContinuousSweepMode,
        ),
        config.after_sweep_mode(SweepMode::Continuous { sweep_rate }) == config,
{
}

/// Radar configuration structure to manage the settings of a radar sensor.
#[derive(Debug)]
pub struct RadarConfig {
    sweeps_per_frame: u16,
    sweep_rate: Float32,
    frame_rate: Float32,
    continuous_sweep_mode: bool,
    double_buffering: bool,
    inter_frame_idle_state: RadarIdleState,
    inter_sweep_idle_state: RadarIdleState,
    num_subsweeps: u8,
    subsweeps: [SubsweepSettings; 4],
}

impl View for RadarConfig {
    type V = RadarConfigView;

    closed spec fn view(&self) -> RadarConfigView {
        RadarConfigView {
            sweeps_per_frame: self.sweeps_per_frame,
            sweep_rate: self.sweep_rate,
            frame_rate: self.frame_rate,
            continuous_sweep_mode: self.continuous_sweep_mode,
            double_buffering: self.double_buffering,
            inter_frame_idle_state: self.inter_frame_idle_state,
            inter_sweep_idle_state: self.inter_sweep_idle_state,
            num_subsweeps: self.num_subsweeps,
            subsweeps: self.subsweeps@,
        }
    }
}

impl RadarConfig {
    #[verifier::type_invariant]
    spec fn valid(self) -> bool {
        1 <= self.num_subsweeps <= MAX_NUM_SUBSWEEPS
    }

    /// Creates a new radar configuration instance: an empty record, with one
    /// subsweep in use.
    pub fn new() -> (config: Self)
        ensures
            config@ == RadarConfigView::initial(),
            config@.well_formed(),
    {
        let subsweep = SubsweepSettings {
            start_point: 0,
            num_points: 0,
            step_length: 0,
            profile: RadarProfile::AccProfile1,
            hwaas: Hwaas(0),
            receiver_gain: 0,
            enable_tx: false,
            prf: PulseRepetitionFrequency::Prf19_5Mhz,
            phase_enhancement: false,
            enable_loopback: false,
        };
        let config = Self {
            sweeps_per_frame: 0,
            sweep_rate: Float32 { bits: 0 },
            frame_rate: Float32 { bits: 0 },
            continuous_sweep_mode: false,
            double_buffering: false,
            inter_frame_idle_state: RadarIdleState::DeepSleep,
            inter_sweep_idle_state: RadarIdleState::DeepSleep,
            num_subsweeps: 1,
            subsweeps: [subsweep; 4],
        };
        assert(config@.subsweeps =~= RadarConfigView::initial().subsweeps);
        config
    }

    /// Whether continuous sweep mode can be switched on.
    fn admits_continuous_sweep_mode(&self) -> (r: bool)
        ensures
            r == self@.admits_continuous_sweep_mode(),
    {
        self.frame_rate().is_unlimited() && self.sweep_rate().is_positive()
            && self.inter_frame_idle_state() == self.inter_sweep_idle_state()
    }

    /// Sets the sweep mode for the radar sensor
    ///
    /// Continuous mode is rejected where the configuration does not admit
    /// it, and where the sweep rate that is asked for is not above zero. A
    /// mode that is rejected changes nothing: both are looked at before
    /// anything is set.
    ///
    /// # Arguments
    /// * `sweep_mode` - The sweep mode to set
    pub fn set_sweep_mode(&mut self, sweep_mode: SweepMode) -> (r: Result<(), ConfigError>)
        ensures
            r == sweep_mode_result(old(self)@, sweep_mode),
            r is Err ==> final(self)@ == old(self)@,
            final(self)@ == old(self)@.after_sweep_mode(sweep_mode),
    {
        match sweep_mode {
            SweepMode::Continuous { sweep_rate } => {
                if !self.admits_continuous_sweep_mode() {
                    return Err(ConfigError::ContinuousSweepMode);
                }
                if !sweep_rate.is_positive() {
                    return Err(ConfigError::SweepRate);
                }
                match self.set_continuous_sweep_mode(true) {
                    Ok(()) => {},
                    Err(e) => {
                        return Err(e);
                    },
                }
                match self.set_sweep_rate(sweep_rate) {
                    Ok(()) => {},
                    Err(e) => {
                        return Err(e);
                    },
                }
            },
            SweepMode::Discrete { frame_rate, sweeps_per_frame } => {
                match self.set_continuous_sweep_mode(false) {
                    Ok(()) => {},
                    Err(e) => {
                        return Err(e);
                    },
                }
                self.set_frame_rate(frame_rate);
                self.set_sweeps_per_frame(sweeps_per_frame);
            },
        }
        Ok(())
    }

    /// Set the number of sweeps captured in each frame (measurement).
    ///
    /// # Arguments
    ///
    /// * `sweeps_per_frame` - Number of sweeps per frame.
    pub fn set_sweeps_per_frame(&mut self, sweeps_per_frame: u16)
        ensures
            final(self)@ == (RadarConfigView { sweeps_per_frame, ..old(self)@ }),
    {
        proof {
            use_type_invariant(&*self);
        }
        self.sweeps_per_frame = sweeps_per_frame;
    }

    /// Get the number of sweeps captured in each frame (measurement).
    pub fn sweeps_per_frame(&self) -> (sweeps: u16)
        ensures
            sweeps == self@.sweeps_per_frame,
    {
        self.sweeps_per_frame
    }

    /// Set the frame rate
    ///
    /// # Arguments
    ///
    /// * `frame_rate` - Frame rate in Hz. 0 is interpreted as unlimited
    pub fn set_frame_rate(&mut self, frame_rate: FrameRate)
        ensures
            final(self)@ == (RadarConfigView { frame_rate: frame_rate.rate(), ..old(self)@ }),
    {
        proof {
            use_type_invariant(&*self);
        }
        self.frame_rate = frame_rate.value();
    }

    /// Get the frame rate
    ///
    /// Returns the currently set frame rate in Hz.
    pub fn frame_rate(&self) -> (limit: FrameRate)
        ensures
            limit == self@.frame_rate_limit(),
    {
        if self.frame_rate.is_zero() {
            FrameRate::Unlimited
        } else {
            FrameRate::Limited(self.frame_rate)
        }
    }

    /// Set continuous sweep mode.
    ///
    /// In continuous sweep mode, the timing is identical over all sweeps, not
    /// just the sweeps in a frame.
    /// Enabling continuous sweep mode imposes certain constraints:
    /// - Frame rate must be set to unlimited (0.0 Hz).
    /// - Sweep rate must be set: a number greater than 0 Hz.
    /// - Inter-frame and inter-sweep idle states must be the same.
    ///
    /// A request that breaks a constraint is rejected and changes nothing.
    ///
    /// # Arguments
    ///
    /// * `enabled` - true to enable continuous sweep mode, false to disable it.
    pub fn set_continuous_sweep_mode(&mut self, enabled: bool) -> (r: Result<(), ConfigError>)
        ensures
            r is Err <==> enabled && !old(self)@.admits_continuous_sweep_mode(),
            r is Err ==> r == Err::<(), ConfigError>(ConfigError::ContinuousSweepMode),
            r is Err ==> final(self)@ == old(self)@,
            r is Ok ==> final(self)@ == (RadarConfigView {
                continuous_sweep_mode: enabled,
                ..old(self)@
            }),
            final(self)@ == old(self)@.after_continuous_sweep_mode(enabled),
    {
        proof {
            use_type_invariant(&*self);
        }
        if enabled && !self.admits_continuous_sweep_mode() {
            return Err(ConfigError::ContinuousSweepMode);
        }
        self.continuous_sweep_mode = enabled;
        Ok(())
    }

    /// Get continuous sweep mode
    ///
    /// Returns true if continuous sweep mode is enabled.
    pub fn is_continuous_sweep_mode_enabled(&self) -> (enabled: bool)
        ensures
            enabled == self@.continuous_sweep_mode,
    {
        self.continuous_sweep_mode
    }

    /// Set the sweep rate
    ///
    /// A rate that is not a number above zero (zero, a rate with a sign, what
    /// is not a number) is rejected and changes nothing.
    ///
    /// # Arguments
    ///
    /// * `sweep_rate` - Sweep rate in Hz. Must be > 0
    pub fn set_sweep_rate(&mut self, sweep_rate: Float32) -> (r: Result<(), ConfigError>)
        ensures
            r is Err <==> !valid_sweep_rate(sweep_rate),
            r is Err ==> r == Err::<(), ConfigError>(ConfigError::SweepRate),
            r is Err ==> final(self)@ == old(self)@,
            r is Ok ==> final(self)@ == (RadarConfigView { sweep_rate, ..old(self)@ }),
    {
        proof {
            use_type_invariant(&*self);
        }
        if !sweep_rate.is_positive() {
            return Err(ConfigError::SweepRate);
        }
        self.sweep_rate = sweep_rate;
        Ok(())
    }

    /// Get the sweep rate
    ///
    /// Returns the currently set sweep rate in Hz.
    pub fn sweep_rate(&self) -> (hz: Float32)
        ensures
            hz == self@.sweep_rate,
    {
        self.sweep_rate
    }

    /// Set inter frame idle state
    ///
    /// # Arguments
    ///
    /// * `idle_state` - The idle state to use between frames
    pub fn set_inter_frame_idle_state(&mut self, idle_state: RadarIdleState)
        ensures
            final(self)@ == (RadarConfigView { inter_frame_idle_state: idle_state, ..old(self)@ }),
    {
        proof {
            use_type_invariant(&*self);
        }
        self.inter_frame_idle_state = idle_state;
    }

    /// Get inter frame idle state
    ///
    /// Returns the currently set idle state used between frames.
    pub fn inter_frame_idle_state(&self) -> (idle_state: RadarIdleState)
        ensures
            idle_state == self@.inter_frame_idle_state,
    {
        self.inter_frame_idle_state
    }

    /// Set inter sweep idle state
    ///
    /// # Arguments
    ///
    /// * `idle_state` - The idle state to use between sweeps within a frame
    pub fn set_inter_sweep_idle_state(&mut self, idle_state: RadarIdleState)
        ensures
            final(self)@ == (RadarConfigView { inter_sweep_idle_state: idle_state, ..old(self)@ }),
    {
        proof {
            use_type_invariant(&*self);
        }
        self.inter_sweep_idle_state = idle_state;
    }

    /// Get inter sweep idle state
    ///
    /// Returns the currently set idle state used between sweeps within a frame.
    pub fn inter_sweep_idle_state(&self) -> (idle_state: RadarIdleState)
        ensures
            idle_state == self@.inter_sweep_idle_state,
    {
        self.inter_sweep_idle_state
    }

    /// Set the number of subsweeps in the radar configuration.
    ///
    /// A configuration has at least one subsweep and at most
    /// `MAX_NUM_SUBSWEEPS`. Any other number is rejected and changes nothing.
    ///
    /// # Arguments
    /// * `num_subsweep` - The number of subsweeps to set
    pub fn set_num_subsweep(&mut self, num_subsweep: u8) -> (r: Result<(), ConfigError>)
        ensures
            r is Ok <==> 1 <= num_subsweep <= MAX_NUM_SUBSWEEPS,
            r is Err ==> r == Err::<(), ConfigError>(ConfigError::NumSubsweep),
            r is Err ==> final(self)@ == old(self)@,
            r is Ok ==> final(self)@ == (RadarConfigView {
                num_subsweeps: num_subsweep,
                ..old(self)@
            }),
            final(self)@.well_formed(),
    {
        proof {
            use_type_invariant(&*self);
        }
        if num_subsweep == 0 || num_subsweep > MAX_NUM_SUBSWEEPS {
            return Err(ConfigError::NumSubsweep);
        }
        self.num_subsweeps = num_subsweep;
        Ok(())
    }

    /// Get the number of subsweeps in the radar configuration.
    pub fn num_subsweep(&self) -> (count: u8)
        ensures
            count == self@.num_subsweeps,
            self@.well_formed(),
    {
        proof {
            use_type_invariant(self);
        }
        self.num_subsweeps
    }

    /// Get a subsweep from the radar configuration.
    /// # Arguments
    /// * `index` - The index of the subsweep to get
    /// # Returns
    /// * `Some(Subsweep)` - The subsweep at the given index
    /// * `None` - If the index is out of bounds
    pub fn get_subsweep(&self, index: u8) -> (subsweep: Option<Subsweep>)
        ensures
            self@.well_formed(),
            subsweep is Some <==> index < self@.num_subsweeps,
            subsweep matches Some(found) ==> found@ == index,
    {
        if index >= self.num_subsweep() {
            return None;
        }
        Some(Subsweep::new(index))
    }

    /// Get the buffer size needed for the current configuration
    ///
    /// The size is the engine's to tell. `reported` is its answer: the size,
    /// or `None` where it could not determine one.
    ///
    /// # Returns
    /// * `Ok(u32)` - The buffer size needed for the current configuration
    /// * `Err(ConfigError::BufferSize)` - If the buffer size could not be determined
    pub fn config_buffer_size(&self, reported: Option<u32>) -> (r: Result<u32, ConfigError>)
        ensures
            r == match reported {
                Some(size) => Ok::<u32, ConfigError>(size),
                None => Err::<u32, ConfigError>(ConfigError::BufferSize),
            },
    {
        match reported {
            Some(size) => Ok(size),
            None => Err(ConfigError::BufferSize),
        }
    }

    /// Sets the starting point of the sweep.
    pub fn set_start_point(&mut self, start_point: i32)
        ensures
            final(self)@ == old(self)@.with_subsweep(
                0,
                SubsweepSettings { start_point, ..old(self)@.subsweeps[0] },
            ),
            final(self)@.well_formed(),
    {
        proof {
            use_type_invariant(&*self);
        }
        let settings = self.subsweeps[0];
        self.subsweeps[0] = SubsweepSettings { start_point, ..settings };
    }

    /// Get the starting point of the sweep.
    pub fn start_point(&self) -> (start_point: i32)
        ensures
            start_point == self@.subsweeps[0].start_point,
    {
        self.subsweeps[0].start_point
    }

    /// Set the number of data points to measure in a sweep.
    pub fn set_num_points(&mut self, num_points: u16)
        ensures
            final(self)@ == old(self)@.with_subsweep(
                0,
                SubsweepSettings { num_points, ..old(self)@.subsweeps[0] },
            ),
            final(self)@.well_formed(),
    {
        proof {
            use_type_invariant(&*self);
        }
        let settings = self.subsweeps[0];
        self.subsweeps[0] = SubsweepSettings { num_points, ..settings };
    }

    /// Get the number of data points set to measure in a sweep.
    pub fn num_points(&self) -> (num_points: u16)
        ensures
            num_points == self@.subsweeps[0].num_points,
    {
        self.subsweeps[0].num_points
    }

    /// Set the step length between each data point in a sweep.
    pub fn set_step_length(&mut self, step_length: u16)
        ensures
            final(self)@ == old(self)@.with_subsweep(
                0,
                SubsweepSettings { step_length, ..old(self)@.subsweeps[0] },
            ),
            final(self)@.well_formed(),
    {
        proof {
            use_type_invariant(&*self);
        }
        let settings = self.subsweeps[0];
        self.subsweeps[0] = SubsweepSettings { step_length, ..settings };
    }

    /// Get the current step length between each data point in a sweep.
    pub fn step_length(&self) -> (step_length: u16)
        ensures
            step_length == self@.subsweeps[0].step_length,
    {
        self.subsweeps[0].step_length
    }

    /// Set the radar profile.
    pub fn set_profile(&mut self, profile: RadarProfile)
        ensures
            final(self)@ == old(self)@.with_subsweep(
                0,
                SubsweepSettings { profile, ..old(self)@.subsweeps[0] },
            ),
            final(self)@.well_formed(),
    {
        proof {
            use_type_invariant(&*self);
        }
        let settings = self.subsweeps[0];
        self.subsweeps[0] = SubsweepSettings { profile, ..settings };
    }

    /// Get the currently used radar profile
    pub fn profile(&self) -> (profile: RadarProfile)
        ensures
            profile == self@.subsweeps[0].profile,
    {
        self.subsweeps[0].profile
    }

    /// Set the receiver gain setting.
    ///
    /// Must be a value between 0 and 23 inclusive where 23 is the highest gain and 0 the lowest.
    /// Lower gain gives higher SNR. However, too low gain may result in quantization, lowering SNR.
    /// Too high gain may result in saturation, corrupting the data.
    pub fn receiver_gain_set(&mut self, receiver_gain: u8)
        ensures
            final(self)@ == old(self)@.with_subsweep(
                0,
                SubsweepSettings { receiver_gain, ..old(self)@.subsweeps[0] },
            ),
            final(self)@.well_formed(),
    {
        proof {
            use_type_invariant(&*self);
        }
        let settings = self.subsweeps[0];
        self.subsweeps[0] = SubsweepSettings { receiver_gain, ..settings };
    }

    /// Get the current receiver gain setting.
    pub fn receiver_gain(&self) -> (receiver_gain: u8)
        ensures
            receiver_gain == self@.subsweeps[0].receiver_gain,
    {
        self.subsweeps[0].receiver_gain
    }

    /// Set the Pulse Repetition Frequency (PRF)
    pub fn set_prf(&mut self, prf: PulseRepetitionFrequency)
        ensures
            final(self)@ == old(self)@.with_subsweep(
                0,
                SubsweepSettings { prf, ..old(self)@.subsweeps[0] },
            ),
            final(self)@.well_formed(),
    {
        proof {
            use_type_invariant(&*self);
        }
        let settings = self.subsweeps[0];
        self.subsweeps[0] = SubsweepSettings { prf, ..settings };
    }

    /// Get the Pulse Repetition Frequency
    pub fn prf(&self) -> (prf: PulseRepetitionFrequency)
        ensures
            prf == self@.subsweeps[0].prf,
    {
        self.subsweeps[0].prf
    }

    /// Enable or disable phase enhancement
    ///
    /// If enabled, the data phase will be enhanced such that coherent distance
    /// filtering can be applied.
    pub fn set_phase_enhancement(&mut self, phase_enhancement: bool)
        ensures
            final(self)@ == old(self)@.with_subsweep(
                0,
                SubsweepSettings { phase_enhancement, ..old(self)@.subsweeps[0] },
            ),
            final(self)@.well_formed(),
    {
        proof {
            use_type_invariant(&*self);
        }
        let settings = self.subsweeps[0];
        self.subsweeps[0] = SubsweepSettings { phase_enhancement, ..settings };
    }

    /// Check if phase enhancement is enabled
    pub fn is_phase_enhancement_enabled(&self) -> (phase_enhancement: bool)
        ensures
            phase_enhancement == self@.subsweeps[0].phase_enhancement,
    {
        self.subsweeps[0].phase_enhancement
    }

    /// Enable or disable loopback
    ///
    /// Loopback can't be enabled together with profile 2.
    pub fn set_loopback(&mut self, enable_loopback: bool)
        ensures
            final(self)@ == old(self)@.with_subsweep(
                0,
                SubsweepSettings { enable_loopback, ..old(self)@.subsweeps[0] },
            ),
            final(self)@.well_formed(),
    {
        proof {
            use_type_invariant(&*self);
        }
        let settings = self.subsweeps[0];
        self.subsweeps[0] = SubsweepSettings { enable_loopback, ..settings };
    }

    /// Get the enable loopback configuration
    pub fn is_loopback_enabled(&self) -> (enable_loopback: bool)
        ensures
            enable_loopback == self@.subsweeps[0].enable_loopback,
    {
        self.subsweeps[0].enable_loopback
    }

    /// Enable or disable the transmitter
    pub fn set_transmitter_enabled(&mut self, enable_tx: bool)
        ensures
            final(self)@ == old(self)@.with_subsweep(
                0,
                SubsweepSettings { enable_tx, ..old(self)@.subsweeps[0] },
            ),
            final(self)@.well_formed(),
    {
        proof {
            use_type_invariant(&*self);
        }
        let settings = self.subsweeps[0];
        self.subsweeps[0] = SubsweepSettings { enable_tx, ..settings };
    }

    /// Get transmitter enable configuration
    pub fn is_transmitter_enabled(&self) -> (enable_tx: bool)
        ensures
            enable_tx == self@.subsweeps[0].enable_tx,
    {
        self.subsweeps[0].enable_tx
    }

    /// Set the hardware accelerated average samples (HWAAS).
    ///
    /// Each data point can be sampled several times, and the sensor hardware
    /// produces an average value of those samples. The time needed to measure
    /// a sweep is roughly proportional to the number of averaged samples.
    /// Decreasing HWAAS can increase the update rate but may lead to lower SNR.
    ///
    /// # Arguments
    ///
    /// * `hwaas` - Number of hardware accelerated average samples.
    pub fn set_hwaas(&mut self, hwaas: Hwaas) -> (r: Result<(), ConfigError>)
        ensures
            r is Ok,
            final(self)@ == old(self)@.with_subsweep(
                0,
                SubsweepSettings { hwaas, ..old(self)@.subsweeps[0] },
            ),
            final(self)@.well_formed(),
    {
        proof {
            use_type_invariant(&*self);
        }
        let settings = self.subsweeps[0];
        self.subsweeps[0] = SubsweepSettings { hwaas, ..settings };
        Ok(())
    }

    /// Get the hardware accelerated average samples (HWAAS).
    ///
    /// Returns the number of hardware accelerated average samples currently set.
    pub fn hwaas(&self) -> (hwaas: Hwaas)
        ensures
            hwaas == self@.subsweeps[0].hwaas,
    {
        self.subsweeps[0].hwaas
    }

    /// Enable or disable double buffering
    ///
    /// If enabled, the sensor buffer will be split in two halves reducing the
    /// maximum number of samples.
    ///
    /// # Arguments
    ///
    /// * `enable` - true to enable double buffering, false otherwise
    pub fn set_double_buffering(&mut self, enable: bool)
        ensures
            final(self)@ == (RadarConfigView { double_buffering: enable, ..old(self)@ }),
    {
        proof {
            use_type_invariant(&*self);
        }
        self.double_buffering = enable;
    }

    /// Get the double buffering configuration
    ///
    /// Returns true if double buffering is enabled.
    pub fn is_double_buffering_enabled(&self) -> (enabled: bool)
        ensures
            enabled == self@.double_buffering,
    {
        self.double_buffering
    }

    /// The settings of a subsweep.
    pub fn subsweep_settings(&self, subsweep: &Subsweep) -> (settings: SubsweepSettings)
        ensures
            self@.well_formed(),
            settings == self@.subsweeps[subsweep@ as int],
    {
        proof {
            use_type_invariant(self);
        }
        self.subsweeps[subsweep.index() as usize]
    }

    /// Replaces the settings of a subsweep.
    pub fn set_subsweep_settings(&mut self, subsweep: &Subsweep, settings: SubsweepSettings)
        ensures
            final(self)@ == old(self)@.with_subsweep(subsweep@ as int, settings),
            final(self)@.well_formed(),
    {
        proof {
            use_type_invariant(&*self);
        }
        self.subsweeps[subsweep.index() as usize] = settings;
    }
}

} // verus!
