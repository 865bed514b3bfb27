//! Metadata of a processing instance.

use vstd::prelude::*;
use crate::num::Float32;

verus! {

/// What the engine tells of the data layout of a processing instance when it
/// creates one.
#[derive(Debug, Clone, Copy)]
pub struct ProcessingMetaData {
    /// Number of elements in the frame
    pub frame_data_length: u16,
    /// Number of elements in the sweep
    pub sweep_data_length: u16,
    /// Offset to the data of each subsweep
    pub subsweep_data_offset: [u16; 4],
    /// Number of elements of each subsweep
    pub subsweep_data_length: [u16; 4],
    /// Maximum sweep rate that the sensor can provide for the configuration,
    /// zero if none applies
    pub max_sweep_rate: Float32,
    /// Whether high speed mode is used
    pub high_speed_mode: bool,
}

impl ProcessingMetaData {
    /// Metadata in which every length and offset is zero.
    pub fn new() -> (metadata: Self)
        ensures
            metadata.frame_data_length == 0,
            metadata.sweep_data_length == 0,
            forall|i: int| 0 <= i < 4 ==> metadata.subsweep_data_offset@[i] == 0,
            forall|i: int| 0 <= i < 4 ==> metadata.subsweep_data_length@[i] == 0,
            metadata.max_sweep_rate.bits == 0,
            !metadata.high_speed_mode,
    {
        Self {
            frame_data_length: 0,
            sweep_data_length: 0,
            subsweep_data_offset: [0u16; 4],
            subsweep_data_length: [0u16; 4],
            max_sweep_rate: Float32 { bits: 0 },
            high_speed_mode: false,
        }
    }

    /// Number of elements in the frame.
    pub fn frame_data_length(&self) -> (length: usize)
        ensures
            length == self.frame_data_length,
    {
        self.frame_data_length as usize
    }

    /// Number of elements in the sweep.
    pub fn sweep_data_length(&self) -> (length: usize)
        ensures
            length == self.sweep_data_length,
    {
        self.sweep_data_length as usize
    }

    /// Offset to the data of the subsweep `index`.
    pub fn subsweep_data_offset(&self, index: usize) -> (offset: usize)
        requires
            index < 4,
        ensures
            offset == self.subsweep_data_offset@[index as int],
    {
        self.subsweep_data_offset[index] as usize
    }

    /// Number of elements of the subsweep `index`.
    pub fn subsweep_data_length(&self, index: usize) -> (length: usize)
        requires
            index < 4,
        ensures
            length == self.subsweep_data_length@[index as int],
    {
        self.subsweep_data_length[index] as usize
    }

    /// Maximum sweep rate that the sensor can provide for the configuration.
    pub fn max_sweep_rate(&self) -> (rate: Float32)
        ensures
            rate == self.max_sweep_rate,
    {
        self.max_sweep_rate
    }
}

impl Default for ProcessingMetaData {
    fn default() -> (metadata: Self)
        ensures
            metadata.frame_data_length == 0,
            metadata.sweep_data_length == 0,
            forall|i: int| 0 <= i < 4 ==> metadata.subsweep_data_offset@[i] == 0,
            forall|i: int| 0 <= i < 4 ==> metadata.subsweep_data_length@[i] == 0,
            metadata.max_sweep_rate.bits == 0,
            !metadata.high_speed_mode,
    {
        Self::new()
    }
}

} // verus!
