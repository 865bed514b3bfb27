//! Errors of the radar configuration.

use vstd::prelude::*;

verus! {

/// Custom errors for radar configuration operations.
#[derive(Debug, Clone, Copy, PartialEq, Eq, Structural)]
pub enum ConfigError {
    /// Error indicating invalid hardware accelerated average samples setting.
    Hwaas,
    /// Error indicating invalid continuous sweep mode setting.
    ContinuousSweepMode,
    /// Error indicating invalid sweep rate setting.
    SweepRate,
    /// Error indicating invalid number of subsweeps setting.
    NumSubsweep,
    /// Error indicating that the engine could not tell the buffer size.
    BufferSize,
}

} // verus!
