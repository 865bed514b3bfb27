//! Frame rate.

use vstd::prelude::*;
use crate::num::Float32;

verus! {

/// Frame rate options for the radar configuration.
#[derive(Debug, Clone, Copy, PartialEq, Eq, Structural)]
pub enum FrameRate {
    /// No limit on the frame rate.
    Unlimited,
    /// Frame rate limited to a specific value in Hz.
    Limited(Float32),
}

impl FrameRate {
    /// The rate as the engine takes it: positive zero for no limit.
    pub open spec fn rate(self) -> Float32 {
        match self {
            FrameRate::Unlimited => Float32 { bits: 0 },
            FrameRate::Limited(value) => value,
        }
    }

    /// Returns the frame rate in Hz.
    pub fn value(&self) -> (hz: Float32)
        ensures
            hz == self.rate(),
    {
        match self {
            FrameRate::Unlimited => Float32 { bits: 0 },
            FrameRate::Limited(value) => *value,
        }
    }

    /// Returns true if the frame rate is limited to a specific value.
    pub fn is_limited(&self) -> (r: bool)
        ensures
            r == (*self is Limited),
    {
        match self {
            FrameRate::Limited(_) => true,
            FrameRate::Unlimited => false,
        }
    }

    /// Returns true if the frame rate is unlimited.
    pub fn is_unlimited(&self) -> (r: bool)
        ensures
            r == (*self is Unlimited),
    {
        match self {
            FrameRate::Unlimited => true,
            FrameRate::Limited(_) => false,
        }
    }
}

} // verus!
