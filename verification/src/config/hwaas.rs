//! Hardware accelerated average samples.

use vstd::prelude::*;
use vstd::std_specs::convert::FromSpecImpl;
use vstd::std_specs::convert::TryFromSpecImpl;
use crate::config::error::ConfigError;

verus! {

/// The number of samples from which the sensor hardware can average one data
/// point is below this limit.
pub const HWAAS_LIMIT: u16 = 512;

/// Hardware accelerated average samples
#[derive(Debug, Clone, Copy, PartialEq, Eq, Structural)]
pub struct Hwaas(pub u16);

impl Hwaas {
    /// Takes the number of samples as it is, valid or not.
    pub fn new(value: u16) -> (hwaas: Self)
        ensures
            hwaas.0 == value,
    {
        Self(value)
    }

    /// The number of samples.
    pub fn value(&self) -> (value: u16)
        ensures
            value == self.0,
    {
        self.0
    }
}

impl TryFrom<u16> for Hwaas {
    type Error = ConfigError;

    /// Accepts the numbers of samples that the sensor hardware can average.
    fn try_from(value: u16) -> (r: Result<Self, ConfigError>)
    {
        if value < HWAAS_LIMIT {
            Ok(Self(value))
        } else {
            Err(ConfigError::Hwaas)
        }
    }
}

impl TryFromSpecImpl<u16> for Hwaas {
    open spec fn obeys_try_from_spec() -> bool {
        true
    }

    open spec fn try_from_spec(value: u16) -> Result<Self, ConfigError> {
        if value < HWAAS_LIMIT {
            Ok(Hwaas(value))
        } else {
            Err(ConfigError::Hwaas)
        }
    }
}

impl From<Hwaas> for u16 {
    fn from(hwaas: Hwaas) -> (value: u16)
    {
        hwaas.0
    }
}

impl FromSpecImpl<Hwaas> for u16 {
    open spec fn obeys_from_spec() -> bool {
        true
    }

    open spec fn from_spec(hwaas: Hwaas) -> u16 {
        hwaas.0
    }
}

} // verus!
