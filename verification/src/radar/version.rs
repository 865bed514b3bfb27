//! The version of the radar system software.

use vstd::prelude::*;

verus! {

/// Radar Sensor Software Version
///
/// The engine tells its version as one number: the major version in the upper
/// sixteen bits, the minor version and the patch in one byte each below it.
#[derive(Debug, Clone, Copy, PartialEq, Eq, Structural)]
pub struct RssVersion {
    /// The version as the engine tells it
    pub version: u32,
}

impl RssVersion {
    /// The major version of a version number.
    pub open spec fn major_of(version: u32) -> int {
        version as int / 0x1_0000
    }

    /// The minor version of a version number.
    pub open spec fn minor_of(version: u32) -> int {
        (version as int / 0x100) % 0x100
    }

    /// The patch of a version number.
    pub open spec fn patch_of(version: u32) -> int {
        version as int % 0x100
    }

    /// The version that the engine tells as `version`.
    pub fn new(version: u32) -> (rss_version: Self)
        ensures
            rss_version.version == version,
    {
        Self { version }
    }

    /// The major version.
    pub fn major(&self) -> (major: u16)
        ensures
            major as int == Self::major_of(self.version),
    {
        let version = self.version;
        assert((version & 0xFFFF0000) >> 16 == version / 0x1_0000) by (bit_vector);
        assert(version / 0x1_0000 <= 0xFFFF) by (bit_vector);
        ((version & 0xFFFF0000) >> 16) as u16
    }

    /// The minor version.
    pub fn minor(&self) -> (minor: u8)
        ensures
            minor as int == Self::minor_of(self.version),
    {
        let version = self.version;
        assert((version & 0x0000FF00) >> 8 == (version / 0x100) % 0x100) by (bit_vector);
        ((version & 0x0000FF00) >> 8) as u8
    }

    /// The patch.
    pub fn patch(&self) -> (patch: u8)
        ensures
            patch as int == Self::patch_of(self.version),
    {
        let version = self.version;
        assert(version & 0x000000FF == version % 0x100) by (bit_vector);
        (version & 0x000000FF) as u8
    }
}

/// The three parts of a version make up its number.
pub proof fn lemma_version_parts(version: u32)
    ensures
        version as int == RssVersion::major_of(version) * 0x1_0000 + RssVersion::minor_of(version)
            * 0x100 + RssVersion::patch_of(version),
        0 <= RssVersion::major_of(version) <= 0xFFFF,
        0 <= RssVersion::minor_of(version) <= 0xFF,
        0 <= RssVersion::patch_of(version) <= 0xFF,
{
}

} // verus!
