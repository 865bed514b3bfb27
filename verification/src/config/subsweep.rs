//! Subsweep configuration.

use vstd::prelude::*;
use crate::config::hwaas::Hwaas;
use crate::config::prf::PulseRepetitionFrequency;
use crate::config::profile::RadarProfile;
use crate::config::RadarConfig;
use crate::config::SubsweepSettings;
use crate::config::MAX_NUM_SUBSWEEPS;

verus! {

/// Subsweep configuration: the place of one subsweep in a configuration.
#[derive(Debug, Clone, Copy, PartialEq, Eq)]
pub struct Subsweep {
    index: u8,
}

impl View for Subsweep {
    type V = u8;

    closed spec fn view(&self) -> u8 {
        self.index
    }
}

impl Subsweep {
    #[verifier::type_invariant]
    spec fn valid(self) -> bool {
        self.index < MAX_NUM_SUBSWEEPS
    }

    /// The subsweep at `index`.
    pub(crate) fn new(index: u8) -> (subsweep: Self)
        requires
            index < MAX_NUM_SUBSWEEPS,
        ensures
            subsweep@ == index,
    {
        Self { index }
    }

    /// The place of the subsweep in its configuration, counted from 0.
    pub fn index(&self) -> (index: u8)
        ensures
            index == self@,
            index < MAX_NUM_SUBSWEEPS,
    {
        proof {
            use_type_invariant(self);
        }
        self.index
    }

    /// Sets start point for subsweep
    pub fn set_start_point(&self, config: &mut RadarConfig, start_point: i32)
        ensures
            final(config)@ == old(config)@.with_subsweep(
                self@ as int,
                SubsweepSettings { start_point, ..old(config)@.subsweeps[self@ as int] },
            ),
            final(config)@.well_formed(),
    {
        let settings = config.subsweep_settings(self);
        config.set_subsweep_settings(self, SubsweepSettings { start_point, ..settings });
    }

    /// Gets start point for subsweep
    pub fn start_point(&self, config: &RadarConfig) -> (start_point: i32)
        ensures
            start_point == config@.subsweeps[self@ as int].start_point,
    {
        config.subsweep_settings(self).start_point
    }

    /// Sets number of points for subsweep
    pub fn set_num_points(&self, config: &mut RadarConfig, num_points: u16)
        ensures
            final(config)@ == old(config)@.with_subsweep(
                self@ as int,
                SubsweepSettings { num_points, ..old(config)@.subsweeps[self@ as int] },
            ),
            final(config)@.well_formed(),
    {
        let settings = config.subsweep_settings(self);
        config.set_subsweep_settings(self, SubsweepSettings { num_points, ..settings });
    }

    /// Gets number of points for subsweep
    pub fn num_points(&self, config: &RadarConfig) -> (num_points: u16)
        ensures
            num_points == config@.subsweeps[self@ as int].num_points,
    {
        config.subsweep_settings(self).num_points
    }

    /// Sets step length for subsweep
    pub fn set_step_length(&self, config: &mut RadarConfig, step_length: u16)
        ensures
            final(config)@ == old(config)@.with_subsweep(
                self@ as int,
                SubsweepSettings { step_length, ..old(config)@.subsweeps[self@ as int] },
            ),
            final(config)@.well_formed(),
    {
        let settings = config.subsweep_settings(self);
        config.set_subsweep_settings(self, SubsweepSettings { step_length, ..settings });
    }

    /// Gets step length for subsweep
    pub fn step_length(&self, config: &RadarConfig) -> (step_length: u16)
        ensures
            step_length == config@.subsweeps[self@ as int].step_length,
    {
        config.subsweep_settings(self).step_length
    }

    /// Sets profile for subsweep
    pub fn set_profile(&self, config: &mut RadarConfig, profile: RadarProfile)
        ensures
            final(config)@ == old(config)@.with_subsweep(
                self@ as int,
                SubsweepSettings { profile, ..old(config)@.subsweeps[self@ as int] },
            ),
            final(config)@.well_formed(),
    {
        let settings = config.subsweep_settings(self);
        config.set_subsweep_settings(self, SubsweepSettings { profile, ..settings });
    }

    /// Gets profile for subsweep
    pub fn profile(&self, config: &RadarConfig) -> (profile: RadarProfile)
        ensures
            profile == config@.subsweeps[self@ as int].profile,
    {
        config.subsweep_settings(self).profile
    }

    /// Sets Hardware accelerated average samples for subsweep
    pub fn set_hwaas(&self, config: &mut RadarConfig, hwaas: Hwaas)
        ensures
            final(config)@ == old(config)@.with_subsweep(
                self@ as int,
                SubsweepSettings { hwaas, ..old(config)@.subsweeps[self@ as int] },
            ),
            final(config)@.well_formed(),
    {
        let settings = config.subsweep_settings(self);
        config.set_subsweep_settings(self, SubsweepSettings { hwaas, ..settings });
    }

    /// Gets Hardware accelerated average samples for subsweep
    pub fn hwaas(&self, config: &RadarConfig) -> (hwaas: Hwaas)
        ensures
            hwaas == config@.subsweeps[self@ as int].hwaas,
    {
        config.subsweep_settings(self).hwaas
    }

    /// Sets receiver gain for subsweep
    pub fn set_receiver_gain(&self, config: &mut RadarConfig, receiver_gain: u8)
        ensures
            final(config)@ == old(config)@.with_subsweep(
                self@ as int,
                SubsweepSettings { receiver_gain, ..old(config)@.subsweeps[self@ as int] },
            ),
            final(config)@.well_formed(),
    {
        let settings = config.subsweep_settings(self);
        config.set_subsweep_settings(self, SubsweepSettings { receiver_gain, ..settings });
    }

    /// Gets receiver gain for subsweep
    pub fn receiver_gain(&self, config: &RadarConfig) -> (receiver_gain: u8)
        ensures
            receiver_gain == config@.subsweeps[self@ as int].receiver_gain,
    {
        config.subsweep_settings(self).receiver_gain
    }

    /// Sets transmitter enabled for subsweep
    pub fn set_transmitter_enabled(&self, config: &mut RadarConfig, enable_tx: bool)
        ensures
            final(config)@ == old(config)@.with_subsweep(
                self@ as int,
                SubsweepSettings { enable_tx, ..old(config)@.subsweeps[self@ as int] },
            ),
            final(config)@.well_formed(),
    {
        let settings = config.subsweep_settings(self);
        config.set_subsweep_settings(self, SubsweepSettings { enable_tx, ..settings });
    }

    /// Gets transmitter enabled for subsweep
    pub fn is_transmitter_enabled(&self, config: &RadarConfig) -> (enable_tx: bool)
        ensures
            enable_tx == config@.subsweeps[self@ as int].enable_tx,
    {
        config.subsweep_settings(self).enable_tx
    }

    /// Sets Pulse Repetition Frequency for subsweep
    pub fn set_prf(&self, config: &mut RadarConfig, prf: PulseRepetitionFrequency)
        ensures
            final(config)@ == old(config)@.with_subsweep(
                self@ as int,
                SubsweepSettings { prf, ..old(config)@.subsweeps[self@ as int] },
            ),
            final(config)@.well_formed(),
    {
        let settings = config.subsweep_settings(self);
        config.set_subsweep_settings(self, SubsweepSettings { prf, ..settings });
    }

    /// Gets Pulse Repetition Frequency for subsweep
    pub fn prf(&self, config: &RadarConfig) -> (prf: PulseRepetitionFrequency)
        ensures
            prf == config@.subsweeps[self@ as int].prf,
    {
        config.subsweep_settings(self).prf
    }

    /// Set the phase enhancement enabled configuration
    pub fn set_phase_enhancement_enabled(&self, config: &mut RadarConfig, phase_enhancement: bool)
        ensures
            final(config)@ == old(config)@.with_subsweep(
                self@ as int,
                SubsweepSettings { phase_enhancement, ..old(config)@.subsweeps[self@ as int] },
            ),
            final(config)@.well_formed(),
    {
        let settings = config.subsweep_settings(self);
        config.set_subsweep_settings(self, SubsweepSettings { phase_enhancement, ..settings });
    }

    /// Get the phase enhancement enabled configuration
    pub fn is_phase_enhancement_enabled(&self, config: &RadarConfig) -> (phase_enhancement: bool)
        ensures
            phase_enhancement == config@.subsweeps[self@ as int].phase_enhancement,
    {
        config.subsweep_settings(self).phase_enhancement
    }

    /// Set the loopback enabled configuration
    pub fn set_loopback_enabled(&self, config: &mut RadarConfig, enable_loopback: bool)
        ensures
            final(config)@ == old(config)@.with_subsweep(
                self@ as int,
                SubsweepSettings { enable_loopback, ..old(config)@.subsweeps[self@ as int] },
            ),
            final(config)@.well_formed(),
    {
        let settings = config.subsweep_settings(self);
        config.set_subsweep_settings(self, SubsweepSettings { enable_loopback, ..settings });
    }

    /// Get the loopback enabled configuration
    pub fn is_loopback_enabled(&self, config: &RadarConfig) -> (enable_loopback: bool)
        ensures
            enable_loopback == config@.subsweeps[self@ as int].enable_loopback,
    {
        config.subsweep_settings(self).enable_loopback
    }
}

} // verus!
