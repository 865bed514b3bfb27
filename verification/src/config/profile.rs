//! Radar profiles.

use vstd::prelude::*;
use vstd::std_specs::convert::FromSpecImpl;

verus! {

/// Radar profiles indicating different settings for the sensor's RX and TX paths.
///
/// Lower profiles have higher depth resolution while higher profiles have
/// higher radar loop gain.
#[derive(Debug, Clone, Copy, PartialEq, Eq, Structural)]
pub enum RadarProfile {
    /// Profile 1
    AccProfile1,
    /// Profile 2
    AccProfile2,
    /// Profile 3
    AccProfile3,
    /// Profile 4
    AccProfile4,
    /// Profile 5
    AccProfile5,
}

impl RadarProfile {
    /// The number by which the engine knows the profile: 1 to 5.
    pub open spec fn number(self) -> u32 {
        match self {
            RadarProfile::AccProfile1 => 1,
            RadarProfile::AccProfile2 => 2,
            RadarProfile::AccProfile3 => 3,
            RadarProfile::AccProfile4 => 4,
            RadarProfile::AccProfile5 => 5,
        }
    }

    /// The profile that the engine knows by `value`, if there is one.
    pub open spec fn of_number(value: u32) -> Option<RadarProfile> {
        match value {
            1 => Some(RadarProfile::AccProfile1),
            2 => Some(RadarProfile::AccProfile2),
            3 => Some(RadarProfile::AccProfile3),
            4 => Some(RadarProfile::AccProfile4),
            5 => Some(RadarProfile::AccProfile5),
            _ => None,
        }
    }

    /// Converts from FFI value, returning `None` for invalid values.
    pub fn from_ffi(value: u32) -> (profile: Option<Self>)
        ensures
            profile == Self::of_number(value),
    {
        match value {
            1 => Some(RadarProfile::AccProfile1),
            2 => Some(RadarProfile::AccProfile2),
            3 => Some(RadarProfile::AccProfile3),
            4 => Some(RadarProfile::AccProfile4),
            5 => Some(RadarProfile::AccProfile5),
            _ => None,
        }
    }

    /// Converts to the FFI value.
    pub fn to_ffi(&self) -> (number: u32)
        ensures
            number == self.number(),
    {
        match self {
            RadarProfile::AccProfile1 => 1,
            RadarProfile::AccProfile2 => 2,
            RadarProfile::AccProfile3 => 3,
            RadarProfile::AccProfile4 => 4,
            RadarProfile::AccProfile5 => 5,
        }
    }
}

impl From<u32> for RadarProfile {
    /// Converts from FFI value, defaulting to Profile1 for invalid values.
    fn from(value: u32) -> (profile: Self)
    {
        match Self::from_ffi(value) {
            Some(profile) => profile,
            None => RadarProfile::AccProfile1,
        }
    }
}

impl FromSpecImpl<u32> for RadarProfile {
    open spec fn obeys_from_spec() -> bool {
        true
    }

    open spec fn from_spec(value: u32) -> Self {
        match Self::of_number(value) {
            Some(profile) => profile,
            None => RadarProfile::AccProfile1,
        }
    }
}

/// The number of a profile leads back to the profile, and no number outside
/// 1 to 5 leads to one.
pub proof fn lemma_profile_number_round_trip(profile: RadarProfile, value: u32)
    ensures
        RadarProfile::of_number(profile.number()) == Some(profile),
        RadarProfile::of_number(value) is Some <==> 1 <= value <= 5,
        RadarProfile::of_number(value) matches Some(found) ==> found.number() == value,
{
}

} // verus!
