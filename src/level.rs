//! Compression levels and the codec parameters they select.
use libc::c_int;
use vstd::prelude::*;

verus! {

/// How hard the compressor works.
#[derive(Clone, Copy, Debug, PartialEq, Eq, Structural)]
pub enum Compress {
    /// Smallest blocks: least memory and time.
    Fastest,
    /// Largest blocks: best ratio.
    Best,
    /// The usual middle ground.
    Default,
}

/// Work factor handed to the compressor: how long it tries its fast sort on
/// repetitive input before it falls back to the slow one.
pub const WORK_FACTOR: c_int = 30;

/// Block size, in units of 100 000 bytes, that a level selects.
pub open spec fn block_size_of(level: Compress) -> int {
    match level {
        Compress::Fastest => 1,
        Compress::Best => 9,
        Compress::Default => 6,
    }
}

impl Compress {
    /// The block size that this level selects, within bzip2's range 1..=9.
    pub fn block_size_100k(self) -> (r: c_int)
        ensures
            r as int == block_size_of(self),
            1 <= r <= 9,
    {
        match self {
            Compress::Fastest => 1,
            Compress::Best => 9,
            Compress::Default => 6,
        }
    }
}

} // verus!
