//! Raw radar data.

use vstd::prelude::*;

verus! {

/// The size of the radar data of one frame in bytes.
pub const RADAR_DATA_SIZE: usize = 1024;

/// Radar data from the sensor.
#[derive(Debug, Clone, Copy)]
pub struct RadarData {
    /// The bytes of the frame, as the engine wrote them
    pub data: [u8; 1024],
}

impl RadarData {
    /// Creates a new radar data instance: every byte is zero.
    pub fn new() -> (frame: Self)
        ensures
            frame.data@.len() == RADAR_DATA_SIZE,
            forall|i: int| 0 <= i < RADAR_DATA_SIZE ==> frame.data@[i] == 0,
    {
        Self { data: [0u8; 1024] }
    }
}

impl Default for RadarData {
    fn default() -> (frame: Self)
        ensures
            frame.data@.len() == RADAR_DATA_SIZE,
            forall|i: int| 0 <= i < RADAR_DATA_SIZE ==> frame.data@[i] == 0,
    {
        Self { data: [0u8; 1024] }
    }
}

} // verus!
