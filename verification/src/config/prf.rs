//! Pulse repetition frequency.

use vstd::prelude::*;
use vstd::std_specs::convert::FromSpecImpl;
use vstd::std_specs::convert::TryFromSpecImpl;
use crate::num::Float32;

verus! {

/// Pulse Repetition Frequency (PRF)
///
/// PRF is the frequency at which pulses are sent out from the radar system.
/// The measurement time is approximately proportional to the PRF. The higher
/// the PRF, the shorter the measurement time.
///
/// This parameter sets the Maximum Measurable Distance (MMD) and the
/// Maximum Unambiguous Range (MUR). MMD is the maximum value for the end
/// point (start point + (number of points * step length)). MUR is the maximum
/// distance at which an object can be located to guarantee its reflection
/// corresponds to the most recent transmitted pulse.
///
/// | PRF Setting         | PRF      | MMD  | MUR   |
/// |---------------------|----------|------|-------|
/// | Prf19_5Mhz*         | 19.5 MHz | 3.1m | 7.7m  |
/// | Prf15_6Mhz          | 15.6 MHz | 5.1m | 9.6m  |
/// | Prf13_0Mhz          | 13.0 MHz | 7.0m | 11.5m |
/// | Prf8_7Mhz           | 8.7 MHz  | 12.7m| 17.3m |
/// | Prf6_5Mhz           | 6.5 MHz  | 18.5m| 23.1m |
/// | Prf5_2Mhz           | 5.2 MHz  | 24.3m| 28.8m |
///
/// *19.5MHz is only available for profile 1.
#[derive(Debug, Clone, Copy, PartialEq, Eq, Structural)]
pub enum PulseRepetitionFrequency {
    /// 19.5 MHz (Available only for profile 1)
    Prf19_5Mhz,
    /// 15.6 MHz
    Prf15_6Mhz,
    /// 13.0 MHz
    Prf13_0Mhz,
    /// 8.7 MHz
    Prf8_7Mhz,
    /// 6.5 MHz
    Prf6_5Mhz,
    /// 5.2 MHz
    Prf5_2Mhz,
}

impl PulseRepetitionFrequency {
    /// The frequency in Hz.
    pub open spec fn hertz(self) -> u32 {
        match self {
            PulseRepetitionFrequency::Prf19_5Mhz => 19_500_000,
            PulseRepetitionFrequency::Prf15_6Mhz => 15_600_000,
            PulseRepetitionFrequency::Prf13_0Mhz => 13_000_000,
            PulseRepetitionFrequency::Prf8_7Mhz => 8_700_000,
            PulseRepetitionFrequency::Prf6_5Mhz => 6_500_000,
            PulseRepetitionFrequency::Prf5_2Mhz => 5_200_000,
        }
    }

    /// The number by which the engine knows the setting: its place in the
    /// table, counted from 0.
    pub open spec fn number(self) -> u32 {
        match self {
            PulseRepetitionFrequency::Prf19_5Mhz => 0,
            PulseRepetitionFrequency::Prf15_6Mhz => 1,
            PulseRepetitionFrequency::Prf13_0Mhz => 2,
            PulseRepetitionFrequency::Prf8_7Mhz => 3,
            PulseRepetitionFrequency::Prf6_5Mhz => 4,
            PulseRepetitionFrequency::Prf5_2Mhz => 5,
        }
    }

    /// The setting that the engine knows by `value`, if there is one.
    pub open spec fn of_number(value: u32) -> Option<PulseRepetitionFrequency> {
        match value {
            0 => Some(PulseRepetitionFrequency::Prf19_5Mhz),
            1 => Some(PulseRepetitionFrequency::Prf15_6Mhz),
            2 => Some(PulseRepetitionFrequency::Prf13_0Mhz),
            3 => Some(PulseRepetitionFrequency::Prf8_7Mhz),
            4 => Some(PulseRepetitionFrequency::Prf6_5Mhz),
            5 => Some(PulseRepetitionFrequency::Prf5_2Mhz),
            _ => None,
        }
    }

    /// The bit pattern of the maximum measurable distance in meters.
    pub open spec fn max_distance_bits(self) -> u32 {
        match self {
            // 3.1
            PulseRepetitionFrequency::Prf19_5Mhz => 0x4046_6666,
            // 5.1
            PulseRepetitionFrequency::Prf15_6Mhz => 0x40a3_3333,
            // 7.0
            PulseRepetitionFrequency::Prf13_0Mhz => 0x40e0_0000,
            // 12.7
            PulseRepetitionFrequency::Prf8_7Mhz => 0x414b_3333,
            // 18.5
            PulseRepetitionFrequency::Prf6_5Mhz => 0x4194_0000,
            // 24.3
            PulseRepetitionFrequency::Prf5_2Mhz => 0x41c2_6666,
        }
    }

    /// Returns the PRF value in Hz.
    pub fn value(&self) -> (hz: u32)
        ensures
            hz == self.hertz(),
    {
        match self {
            PulseRepetitionFrequency::Prf19_5Mhz => 19_500_000,
            PulseRepetitionFrequency::Prf15_6Mhz => 15_600_000,
            PulseRepetitionFrequency::Prf13_0Mhz => 13_000_000,
            PulseRepetitionFrequency::Prf8_7Mhz => 8_700_000,
            PulseRepetitionFrequency::Prf6_5Mhz => 6_500_000,
            PulseRepetitionFrequency::Prf5_2Mhz => 5_200_000,
        }
    }

    /// Returns the number by which the engine knows the setting.
    pub fn to_ffi(&self) -> (number: u32)
        ensures
            number == self.number(),
    {
        match self {
            PulseRepetitionFrequency::Prf19_5Mhz => 0,
            PulseRepetitionFrequency::Prf15_6Mhz => 1,
            PulseRepetitionFrequency::Prf13_0Mhz => 2,
            PulseRepetitionFrequency::Prf8_7Mhz => 3,
            PulseRepetitionFrequency::Prf6_5Mhz => 4,
            PulseRepetitionFrequency::Prf5_2Mhz => 5,
        }
    }

    /// Returns the maximum measurable distance in meters.
    pub fn max_measurable_distance(&self) -> (meters: Float32)
        ensures
            meters.bits == self.max_distance_bits(),
    {
        match self {
            PulseRepetitionFrequency::Prf19_5Mhz => Float32 { bits: 0x4046_6666 },
            PulseRepetitionFrequency::Prf15_6Mhz => Float32 { bits: 0x40a3_3333 },
            PulseRepetitionFrequency::Prf13_0Mhz => Float32 { bits: 0x40e0_0000 },
            PulseRepetitionFrequency::Prf8_7Mhz => Float32 { bits: 0x414b_3333 },
            PulseRepetitionFrequency::Prf6_5Mhz => Float32 { bits: 0x4194_0000 },
            PulseRepetitionFrequency::Prf5_2Mhz => Float32 { bits: 0x41c2_6666 },
        }
    }
}

impl TryFrom<u32> for PulseRepetitionFrequency {
    type Error = ();

    /// The setting that the engine knows by this number.
    fn try_from(value: u32) -> (r: Result<Self, ()>)
    {
        match value {
            0 => Ok(PulseRepetitionFrequency::Prf19_5Mhz),
            1 => Ok(PulseRepetitionFrequency::Prf15_6Mhz),
            2 => Ok(PulseRepetitionFrequency::Prf13_0Mhz),
            3 => Ok(PulseRepetitionFrequency::Prf8_7Mhz),
            4 => Ok(PulseRepetitionFrequency::Prf6_5Mhz),
            5 => Ok(PulseRepetitionFrequency::Prf5_2Mhz),
            _ => Err(()),
        }
    }
}

impl TryFromSpecImpl<u32> for PulseRepetitionFrequency {
    open spec fn obeys_try_from_spec() -> bool {
        true
    }

    open spec fn try_from_spec(value: u32) -> Result<Self, ()> {
        match Self::of_number(value) {
            Some(prf) => Ok(prf),
            None => Err(()),
        }
    }
}

impl From<PulseRepetitionFrequency> for u32 {
    /// The frequency in Hz.
    fn from(prf: PulseRepetitionFrequency) -> (hz: u32)
    {
        prf.value()
    }
}

impl FromSpecImpl<PulseRepetitionFrequency> for u32 {
    open spec fn obeys_from_spec() -> bool {
        true
    }

    open spec fn from_spec(prf: PulseRepetitionFrequency) -> u32 {
        prf.hertz()
    }
}

/// The number of a setting leads back to the setting, and no other number
/// leads to one.
pub proof fn lemma_prf_number_round_trip(prf: PulseRepetitionFrequency, value: u32)
    ensures
        PulseRepetitionFrequency::of_number(prf.number()) == Some(prf),
        PulseRepetitionFrequency::of_number(value) is Some <==> value <= 5,
        PulseRepetitionFrequency::of_number(value) matches Some(found) ==> found.number()
            == value,
{
}

} // verus!
